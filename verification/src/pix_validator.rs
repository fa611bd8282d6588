//! Validation and normalization of payment-transfer keys, one of four kinds:
//! the national tax identifier, a phone number, an email address, or a
//! random (UUID-shaped) key. Each kind has its own format rule and its own
//! normalized form; a best-effort kind detector infers a kind from shape
//! alone, for advisory use only.

use vstd::prelude::*;

use crate::cpf_validator::{cpf_valid, spec_cpf_error_msg, validate_cpf};
use crate::error::{validation_error, AppError};
use crate::text_util::{
    ascii_lower, chars_to_string, contains_char, digits_of, push_str_chars, remove_char,
    spec_contains_char, spec_digits, spec_lower, spec_remove_char, spec_trim, str_chars,
    trim_chars,
};

verus! {

/// Characters the email pattern accepts left of the '@'.
pub open spec fn is_email_local_char(c: char) -> bool {
    ('a' <= c && c <= 'z') || ('A' <= c && c <= 'Z') || ('0' <= c && c <= '9') || c == '.' || c
        == '_' || c == '%' || c == '+' || c == '-'
}

/// Characters the email pattern accepts between the '@' and the final dot.
pub open spec fn is_email_domain_char(c: char) -> bool {
    ('a' <= c && c <= 'z') || ('A' <= c && c <= 'Z') || ('0' <= c && c <= '9') || c == '.' || c
        == '-'
}

/// An ASCII letter.
pub open spec fn is_ascii_alpha_char(c: char) -> bool {
    ('a' <= c && c <= 'z') || ('A' <= c && c <= 'Z')
}

/// The email shape: a nonempty run of local characters, one '@', a nonempty
/// run of domain characters, one '.', and two or more letters.
pub open spec fn is_email_shape(s: Seq<char>) -> bool {
    exists|i: int, j: int|
        1 <= i && i + 1 < j && j + 3 <= s.len() && #[trigger] s[i] == '@' && #[trigger] s[j]
            == '.' && (forall|k: int| 0 <= k < i ==> is_email_local_char(#[trigger] s[k])) && (
        forall|k: int| i < k < j ==> is_email_domain_char(#[trigger] s[k])) && (forall|k: int|
            j < k < s.len() ==> is_ascii_alpha_char(#[trigger] s[k]))
}

/// A lower-case hexadecimal digit.
pub open spec fn is_hex_lower_char(c: char) -> bool {
    ('0' <= c && c <= '9') || ('a' <= c && c <= 'f')
}

/// Thirty-two lower-case hexadecimal digits: the payload of a random key.
pub open spec fn is_hex32(s: Seq<char>) -> bool {
    s.len() == 32 && forall|i: int| 0 <= i < 32 ==> is_hex_lower_char(#[trigger] s[i])
}

/// Relies on regex::Regex::is_match with the anchored pattern
/// `^[a-zA-Z0-9._%+-]+@[a-zA-Z0-9.-]+\.[a-zA-Z]{2,}$`: it matches exactly
/// the strings that decompose into a nonempty run of local characters, an
/// '@', a nonempty run of domain characters, a '.', and at least two ASCII
/// letters, which is [`is_email_shape`].
#[verifier::external_body]
fn matches_email_pattern(s: &str) -> (r: bool)
    ensures
        r == is_email_shape(s@),
{
    regex::Regex::new(r"^[a-zA-Z0-9._%+-]+@[a-zA-Z0-9.-]+\.[a-zA-Z]{2,}$").unwrap().is_match(s)
}

/// Relies on regex::Regex::is_match with the anchored pattern
/// `^[a-f0-9]{32}$`: it matches exactly the strings of thirty-two
/// lower-case hexadecimal digits, which is [`is_hex32`].
#[verifier::external_body]
fn matches_hex32_pattern(s: &str) -> (r: bool)
    ensures
        r == is_hex32(s@),
{
    regex::Regex::new(r"^[a-f0-9]{32}$").unwrap().is_match(s)
}

/// The normalized display form of an eleven-digit local phone number:
/// `+55 DD NNNNN-NNNN`.
pub open spec fn spec_format_phone(d: Seq<char>) -> Seq<char>
    recommends
        d.len() == 11,
{
    seq!['+', '5', '5', ' '] + d.subrange(0, 2) + seq![' '] + d.subrange(2, 7) + seq!['-']
        + d.subrange(7, 11)
}

/// The canonical 8-4-4-4-12 grouping of a thirty-two-digit random key.
pub open spec fn spec_format_uuid(h: Seq<char>) -> Seq<char>
    recommends
        h.len() == 32,
{
    h.subrange(0, 8) + seq!['-'] + h.subrange(8, 12) + seq!['-'] + h.subrange(12, 16) + seq!['-']
        + h.subrange(16, 20) + seq!['-'] + h.subrange(20, 32)
}

/// What key validation owes for a given raw key and kind, after the key is
/// trimmed and the kind lower-cased: the normalized key on success, the
/// rejection message otherwise.
pub open spec fn spec_pix_outcome(chave: Seq<char>, tipo: Seq<char>) -> Result<Seq<char>, Seq<char>> {
    let key = spec_trim(chave);
    let t = spec_lower(tipo);
    if t == "cpf"@ {
        if cpf_valid(key) {
            Ok(spec_digits(key))
        } else {
            Err(spec_cpf_error_msg(key))
        }
    } else if t == "phone"@ || t == "telefone"@ {
        let d = spec_digits(key);
        if d.len() == 13 && d[0] == '5' && d[1] == '5' {
            Ok(spec_format_phone(d.subrange(2, 13)))
        } else if d.len() == 11 {
            Ok(spec_format_phone(d))
        } else {
            Err("Telefone deve ter 11 dígitos (DDD + número)"@)
        }
    } else if t == "email"@ {
        if is_email_shape(key) {
            Ok(spec_lower(key))
        } else {
            Err("Email inválido para chave PIX"@)
        }
    } else if t == "random"@ || t == "aleatoria"@ {
        let h = spec_lower(spec_remove_char(key, '-'));
        if is_hex32(h) {
            Ok(spec_format_uuid(h))
        } else {
            Err("Chave aleatória deve ser um UUID válido (32 caracteres hex)"@)
        }
    } else {
        Err("Tipo de chave PIX inválido: "@ + tipo)
    }
}

/// Validates a key of the document kind: the identifier rules apply
/// unchanged and the normalized form is the digits-only identifier.
pub fn validate_cpf_key(chave: &str) -> (r: Result<String, AppError>)
    ensures
        r is Ok <==> cpf_valid(chave@),
        r matches Ok(v) ==> v@ == spec_digits(chave@),
        r matches Err(e) ==> (e matches AppError::ValidationError(m) && m@ == spec_cpf_error_msg(
            chave@,
        )),
{
    validate_cpf(chave)
}

/// Formats an eleven-digit phone number as `+55 DD NNNNN-NNNN`.
fn format_phone_11(d: &Vec<char>) -> (r: Vec<char>)
    requires
        d@.len() == 11,
    ensures
        r@ == spec_format_phone(d@),
{
    let mut out: Vec<char> = Vec::new();
    out.push('+');
    out.push('5');
    out.push('5');
    out.push(' ');
    out.push(d[0]);
    out.push(d[1]);
    out.push(' ');
    out.push(d[2]);
    out.push(d[3]);
    out.push(d[4]);
    out.push(d[5]);
    out.push(d[6]);
    out.push('-');
    out.push(d[7]);
    out.push(d[8]);
    out.push(d[9]);
    out.push(d[10]);
    proof {
        assert(out@ =~= spec_format_phone(d@));
    }
    out
}

/// Validates a key of the phone kind: the digits must form an eleven-digit
/// local number, or a thirteen-digit number opening with the country code
/// `55`; the normalized form is `+55 DD NNNNN-NNNN`.
pub fn validate_phone_key(chave: &str) -> (r: Result<String, AppError>)
    ensures
        spec_digits(chave@).len() == 13 && spec_digits(chave@)[0] == '5' && spec_digits(chave@)[1]
            == '5' ==> (r matches Ok(v) && v@ == spec_format_phone(
            spec_digits(chave@).subrange(2, 13),
        )),
        spec_digits(chave@).len() == 11 ==> (r matches Ok(v) && v@ == spec_format_phone(
            spec_digits(chave@),
        )),
        !(spec_digits(chave@).len() == 13 && spec_digits(chave@)[0] == '5' && spec_digits(chave@)[1]
            == '5') && spec_digits(chave@).len() != 11 ==> (r matches Err(e)
            && e matches AppError::ValidationError(m) && m@
            == "Telefone deve ter 11 dígitos (DDD + número)"@),
{
    let cs = str_chars(chave);
    let d = digits_of(&cs);
    if d.len() == 13 && d[0] == '5' && d[1] == '5' {
        let mut local: Vec<char> = Vec::new();
        let mut i: usize = 2;
        while i < 13
            invariant
                2 <= i <= 13,
                d@.len() == 13,
                local@ == d@.subrange(2, i as int),
            decreases 13 - i,
        {
            local.push(d[i]);
            proof {
                assert(d@.subrange(2, i + 1) =~= d@.subrange(2, i as int).push(d@[i as int]));
            }
            i += 1;
        }
        let out = format_phone_11(&local);
        Ok(chars_to_string(&out))
    } else if d.len() == 11 {
        let out = format_phone_11(&d);
        Ok(chars_to_string(&out))
    } else {
        Err(validation_error("Telefone deve ter 11 dígitos (DDD + número)"))
    }
}

/// Validates a key of the email kind against the email shape and normalizes
/// it to lower case. The shape admits ASCII only, so ASCII lower-casing is
/// the whole normalization.
pub fn validate_email_key(chave: &str) -> (r: Result<String, AppError>)
    ensures
        r is Ok <==> is_email_shape(chave@),
        r matches Ok(v) ==> v@ == spec_lower(chave@),
        r matches Err(e) ==> (e matches AppError::ValidationError(m) && m@
            == "Email inválido para chave PIX"@),
{
    if matches_email_pattern(chave) {
        let cs = str_chars(chave);
        let low = ascii_lower(&cs);
        Ok(chars_to_string(&low))
    } else {
        Err(validation_error("Email inválido para chave PIX"))
    }
}

/// Validates a key of the random kind: hyphens are dropped, the rest is
/// lower-cased and must be thirty-two hexadecimal digits, regrouped
/// 8-4-4-4-12.
pub fn validate_random_key(chave: &str) -> (r: Result<String, AppError>)
    ensures
        r is Ok <==> is_hex32(spec_lower(spec_remove_char(chave@, '-'))),
        r matches Ok(v) ==> v@ == spec_format_uuid(spec_lower(spec_remove_char(chave@, '-'))),
        r matches Err(e) ==> (e matches AppError::ValidationError(m) && m@
            == "Chave aleatória deve ser um UUID válido (32 caracteres hex)"@),
{
    let cs = str_chars(chave);
    let no_dash = remove_char(&cs, '-');
    let low = ascii_lower(&no_dash);
    let cleaned = chars_to_string(&low);
    if matches_hex32_pattern(cleaned.as_str()) {
        let h = str_chars(cleaned.as_str());
        let out = format_uuid_32(&h);
        Ok(chars_to_string(&out))
    } else {
        Err(validation_error("Chave aleatória deve ser um UUID válido (32 caracteres hex)"))
    }
}

/// Regroups thirty-two digits as 8-4-4-4-12 with hyphens.
#[verifier::rlimit(60)]
fn format_uuid_32(h: &Vec<char>) -> (r: Vec<char>)
    requires
        h@.len() == 32,
    ensures
        r@ == spec_format_uuid(h@),
{
    let mut out: Vec<char> = Vec::new();
    let mut i: usize = 0;
    while i < 32
        invariant
            i <= 32,
            h@.len() == 32,
            out@ == spec_format_uuid_prefix(h@, i as int),
        decreases 32 - i,
    {
        if i == 8 || i == 12 || i == 16 || i == 20 {
            out.push('-');
        }
        out.push(h[i]);
        proof {
            assert(out@ =~= spec_format_uuid_prefix(h@, i + 1));
        }
        i += 1;
    }
    proof {
        reveal_with_fuel(spec_format_uuid_prefix, 33);
        assert(spec_format_uuid_prefix(h@, 32) =~= spec_format_uuid(h@));
    }
    out
}

/// The first `k` digits of the canonical random-key grouping, hyphens
/// included: the loop invariant of `validate_random_key`.
pub open spec fn spec_format_uuid_prefix(h: Seq<char>, k: int) -> Seq<char>
    recommends
        h.len() == 32,
        0 <= k <= 32,
    decreases k,
{
    if k <= 0 {
        Seq::<char>::empty()
    } else {
        spec_format_uuid_prefix(h, k - 1)
            + (if k - 1 == 8 || k - 1 == 12 || k - 1 == 16 || k - 1 == 20 {
                seq!['-']
            } else {
                Seq::<char>::empty()
            })
            + seq![h[k - 1]]
    }
}

/// Validates a transfer key of the given kind. The key is trimmed and the
/// kind is matched case-insensitively; the result is exactly what
/// [`spec_pix_outcome`] states for the pair.
pub fn validate_pix_key(chave: &str, tipo: &str) -> (r: Result<String, AppError>)
    ensures
        spec_pix_outcome(chave@, tipo@) matches Ok(sv) ==> (r matches Ok(v) && v@ == sv),
        spec_pix_outcome(chave@, tipo@) matches Err(em) ==> (r matches Err(e)
            && e matches AppError::ValidationError(m) && m@ == em),
{
    let cs = str_chars(chave);
    let trimmed = trim_chars(&cs);
    let chave_limpa = chars_to_string(&trimmed);
    let ts = str_chars(tipo);
    let tl = ascii_lower(&ts);
    let t = chars_to_string(&tl);
    if streq(t.as_str(), "cpf") {
        validate_cpf_key(chave_limpa.as_str())
    } else if streq(t.as_str(), "phone") || streq(t.as_str(), "telefone") {
        validate_phone_key(chave_limpa.as_str())
    } else if streq(t.as_str(), "email") {
        validate_email_key(chave_limpa.as_str())
    } else if streq(t.as_str(), "random") || streq(t.as_str(), "aleatoria") {
        validate_random_key(chave_limpa.as_str())
    } else {
        let mut msg: Vec<char> = Vec::new();
        push_str_chars(&mut msg, "Tipo de chave PIX inválido: ");
        push_str_chars(&mut msg, tipo);
        Err(AppError::ValidationError(chars_to_string(&msg)))
    }
}

/// Character-by-character equality of two string slices.
fn streq(a: &str, b: &str) -> (r: bool)
    ensures
        r == (a@ == b@),
{
    let av = str_chars(a);
    crate::text_util::chars_eq_str(&av, b)
}

/// What the best-effort kind detector answers for a raw key: `cpf` for
/// eleven digits passing the identifier rules, `phone` for eleven or
/// thirteen digits, `email` when an '@' occurs, `random` for thirty-two or
/// more characters, `unknown` otherwise.
pub open spec fn spec_detect_kind(chave: Seq<char>) -> Seq<char> {
    let d = spec_digits(chave);
    if d.len() == 11 && cpf_valid(chave) {
        "cpf"@
    } else if d.len() == 11 || d.len() == 13 {
        "phone"@
    } else if spec_contains_char(chave, '@') {
        "email"@
    } else if chave.len() >= 32 {
        "random"@
    } else {
        "unknown"@
    }
}

/// Infers a key kind from shape alone. Advisory only: it never replaces
/// validation against an explicitly chosen kind.
pub fn detect_pix_key_type(chave: &str) -> (r: String)
    ensures
        r@ == spec_detect_kind(chave@),
{
    let cs = str_chars(chave);
    let d = digits_of(&cs);
    if d.len() == 11 {
        let valid = validate_cpf(chave);
        if valid.is_ok() {
            let v = str_chars("cpf");
            return chars_to_string(&v);
        }
    }
    if d.len() == 11 || d.len() == 13 {
        let v = str_chars("phone");
        return chars_to_string(&v);
    }
    if contains_char(&cs, '@') {
        let v = str_chars("email");
        return chars_to_string(&v);
    }
    if cs.len() >= 32 {
        let v = str_chars("random");
        return chars_to_string(&v);
    }
    let v = str_chars("unknown");
    chars_to_string(&v)
}

} // verus!

