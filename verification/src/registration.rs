use vstd::prelude::*;

use crate::dto::UserDTO;
use crate::errors::RegistrationError;

verus! {

/// The length in bytes of the UTF-8 encoding of `s`, as `str::len` reports it.
pub open spec fn byte_len(s: Seq<char>) -> usize {
    vstd::utf8::encode_utf8(s).len() as usize
}

/// Whether a username length is accepted: 2 to 128 bytes.
pub open spec fn username_ok(dto: &UserDTO) -> bool {
    2 <= byte_len(dto.username@) <= 128
}

/// Whether a password length is accepted: 8 to 50 bytes.
pub open spec fn password_ok(dto: &UserDTO) -> bool {
    8 <= byte_len(dto.password@) <= 50
}

/// Whether the class is one of 1 to 11.
pub open spec fn class_ok(dto: &UserDTO) -> bool {
    1 <= dto.class <= 11
}

/// Whether the school number is positive.
pub open spec fn school_ok(dto: &UserDTO) -> bool {
    dto.school >= 1
}

/// Whether both the city and the country are given.
pub open spec fn location_ok(dto: &UserDTO) -> bool {
    dto.location_data.city@.len() > 0 && dto.location_data.country@.len() > 0
}

/// `seq![e]` where `bad` holds, the empty sequence otherwise.
pub open spec fn error_if(bad: bool, e: RegistrationError) -> Seq<RegistrationError> {
    if bad {
        seq![e]
    } else {
        Seq::empty()
    }
}

/// Every reason to refuse the request, in the order in which they are checked.
pub open spec fn registration_errors(dto: &UserDTO, username_free: bool, email_free: bool) -> Seq<
    RegistrationError,
> {
    error_if(!username_ok(dto), RegistrationError::InvalidUsername)
        + error_if(!password_ok(dto), RegistrationError::InvalidPassword)
        + error_if(!class_ok(dto), RegistrationError::InvalidClass)
        + error_if(!school_ok(dto), RegistrationError::InvalidSchoolNumber)
        + error_if(!location_ok(dto), RegistrationError::InvalidLocation)
        + error_if(!username_free, RegistrationError::UsernameExistsInDb)
        + error_if(!email_free, RegistrationError::EmailExistsInDB)
}

/// Whether a registration request may go ahead.
pub open spec fn registration_accepted(dto: &UserDTO, username_free: bool, email_free: bool) -> bool {
    &&& username_ok(dto)
    &&& password_ok(dto)
    &&& class_ok(dto)
    &&& school_ok(dto)
    &&& location_ok(dto)
    &&& username_free
    &&& email_free
}

/// A concatenation holds exactly what its two parts hold.
proof fn lemma_add_contains(s1: Seq<RegistrationError>, s2: Seq<RegistrationError>, x: RegistrationError)
    ensures
        (s1 + s2).contains(x) <==> (s1.contains(x) || s2.contains(x)),
{
    if s1.contains(x) {
        let i = choose|i: int| 0 <= i < s1.len() && s1[i] == x;
        assert((s1 + s2)[i] == x);
    }
    if s2.contains(x) {
        let i = choose|i: int| 0 <= i < s2.len() && s2[i] == x;
        assert((s1 + s2)[s1.len() + i] == x);
    }
    if (s1 + s2).contains(x) {
        let i = choose|i: int| 0 <= i < (s1 + s2).len() && (s1 + s2)[i] == x;
        if i < s1.len() {
            assert(s1[i] == x);
        } else {
            assert(s2[i - s1.len()] == x);
        }
    }
}

/// Two parts without repetitions and without a common item make a
/// concatenation without repetitions.
proof fn lemma_add_no_duplicates(s1: Seq<RegistrationError>, s2: Seq<RegistrationError>)
    requires
        s1.no_duplicates(),
        s2.no_duplicates(),
        forall|x: RegistrationError| s1.contains(x) ==> !s2.contains(x),
    ensures
        (s1 + s2).no_duplicates(),
{
    let s = s1 + s2;
    assert forall|i: int, j: int| 0 <= i < s.len() && 0 <= j < s.len() && i != j implies s[i]
        != s[j] by {
        if i < s1.len() && j >= s1.len() {
            assert(s1.contains(s[i]));
            assert(s2.contains(s2[j - s1.len()]));
        } else if j < s1.len() && i >= s1.len() {
            assert(s1.contains(s[j]));
            assert(s2.contains(s2[i - s1.len()]));
        } else if i >= s1.len() {
            assert(s[i] == s2[i - s1.len()] && s[j] == s2[j - s1.len()]);
        }
    }
}

/// What `error_if` lists.
proof fn lemma_error_if(bad: bool, e: RegistrationError)
    ensures
        forall|x: RegistrationError| error_if(bad, e).contains(x) <==> (bad && x == e),
        error_if(bad, e).no_duplicates(),
{
    if bad {
        assert(error_if(bad, e)[0] == e);
    }
}

/// Each reason to refuse a registration is listed exactly when its check
/// fails, and at most once: a username outside 2 to 128 bytes, a password
/// outside 8 to 50 bytes, a class outside 1 to 11, a school number below 1,
/// a missing city or country, a taken username, a taken e-mail. No other
/// reason is ever listed.
pub proof fn lemma_refusal_reasons(dto: &UserDTO, username_free: bool, email_free: bool)
    requires
        vstd::utf8::encode_utf8(dto.username@).len() <= usize::MAX,
        vstd::utf8::encode_utf8(dto.password@).len() <= usize::MAX,
    ensures
        ({
            let errs = registration_errors(dto, username_free, email_free);
            let ulen = vstd::utf8::encode_utf8(dto.username@).len();
            let plen = vstd::utf8::encode_utf8(dto.password@).len();
            &&& errs.contains(RegistrationError::InvalidUsername) <==> (ulen < 2 || ulen > 128)
            &&& errs.contains(RegistrationError::InvalidPassword) <==> (plen < 8 || plen > 50)
            &&& errs.contains(RegistrationError::InvalidClass) <==> (dto.class < 1 || dto.class > 11)
            &&& errs.contains(RegistrationError::InvalidSchoolNumber) <==> dto.school < 1
            &&& errs.contains(RegistrationError::InvalidLocation) <==> (dto.location_data.city@.len()
                == 0 || dto.location_data.country@.len() == 0)
            &&& errs.contains(RegistrationError::UsernameExistsInDb) <==> !username_free
            &&& errs.contains(RegistrationError::EmailExistsInDB) <==> !email_free
            &&& !errs.contains(RegistrationError::InvalidEmail)
            &&& !errs.contains(RegistrationError::UnExistingEmail)
            &&& errs.no_duplicates()
        }),
{
    let a = error_if(!username_ok(dto), RegistrationError::InvalidUsername);
    let b = error_if(!password_ok(dto), RegistrationError::InvalidPassword);
    let c = error_if(!class_ok(dto), RegistrationError::InvalidClass);
    let d = error_if(!school_ok(dto), RegistrationError::InvalidSchoolNumber);
    let e = error_if(!location_ok(dto), RegistrationError::InvalidLocation);
    let f = error_if(!username_free, RegistrationError::UsernameExistsInDb);
    let g = error_if(!email_free, RegistrationError::EmailExistsInDB);
    lemma_error_if(!username_ok(dto), RegistrationError::InvalidUsername);
    lemma_error_if(!password_ok(dto), RegistrationError::InvalidPassword);
    lemma_error_if(!class_ok(dto), RegistrationError::InvalidClass);
    lemma_error_if(!school_ok(dto), RegistrationError::InvalidSchoolNumber);
    lemma_error_if(!location_ok(dto), RegistrationError::InvalidLocation);
    lemma_error_if(!username_free, RegistrationError::UsernameExistsInDb);
    lemma_error_if(!email_free, RegistrationError::EmailExistsInDB);
    let p2 = a + b;
    let p3 = p2 + c;
    let p4 = p3 + d;
    let p5 = p4 + e;
    let p6 = p5 + f;
    let p7 = p6 + g;
    assert forall|x: RegistrationError| #[trigger] p7.contains(x) <==> (a.contains(x) || b.contains(x)
        || c.contains(x) || d.contains(x) || e.contains(x) || f.contains(x) || g.contains(x)) by {
        lemma_add_contains(a, b, x);
        lemma_add_contains(p2, c, x);
        lemma_add_contains(p3, d, x);
        lemma_add_contains(p4, e, x);
        lemma_add_contains(p5, f, x);
        lemma_add_contains(p6, g, x);
    }
    assert forall|x: RegistrationError| a.contains(x) implies !b.contains(x) by {}
    lemma_add_no_duplicates(a, b);
    assert forall|x: RegistrationError| p2.contains(x) implies !c.contains(x) by {
        lemma_add_contains(a, b, x);
    }
    lemma_add_no_duplicates(p2, c);
    assert forall|x: RegistrationError| p3.contains(x) implies !d.contains(x) by {
        lemma_add_contains(a, b, x);
        lemma_add_contains(p2, c, x);
    }
    lemma_add_no_duplicates(p3, d);
    assert forall|x: RegistrationError| p4.contains(x) implies !e.contains(x) by {
        lemma_add_contains(a, b, x);
        lemma_add_contains(p2, c, x);
        lemma_add_contains(p3, d, x);
    }
    lemma_add_no_duplicates(p4, e);
    assert forall|x: RegistrationError| p5.contains(x) implies !f.contains(x) by {
        lemma_add_contains(a, b, x);
        lemma_add_contains(p2, c, x);
        lemma_add_contains(p3, d, x);
        lemma_add_contains(p4, e, x);
    }
    lemma_add_no_duplicates(p5, f);
    assert forall|x: RegistrationError| p6.contains(x) implies !g.contains(x) by {
        lemma_add_contains(a, b, x);
        lemma_add_contains(p2, c, x);
        lemma_add_contains(p3, d, x);
        lemma_add_contains(p4, e, x);
        lemma_add_contains(p5, f, x);
    }
    lemma_add_no_duplicates(p6, g);
    assert(registration_errors(dto, username_free, email_free) == p7);
    assert(p7.contains(RegistrationError::InvalidUsername) == a.contains(RegistrationError::InvalidUsername));
    assert(p7.contains(RegistrationError::InvalidPassword) == b.contains(RegistrationError::InvalidPassword));
    assert(p7.contains(RegistrationError::InvalidClass) == c.contains(RegistrationError::InvalidClass));
    assert(p7.contains(RegistrationError::InvalidSchoolNumber) == d.contains(
        RegistrationError::InvalidSchoolNumber,
    ));
    assert(p7.contains(RegistrationError::InvalidLocation) == e.contains(RegistrationError::InvalidLocation));
    assert(p7.contains(RegistrationError::UsernameExistsInDb) == f.contains(
        RegistrationError::UsernameExistsInDb,
    ));
    assert(p7.contains(RegistrationError::EmailExistsInDB) == g.contains(RegistrationError::EmailExistsInDB));
    assert(!p7.contains(RegistrationError::InvalidEmail));
    assert(!p7.contains(RegistrationError::UnExistingEmail));
}

/// Checks a registration request. `username_free` and `email_free` say whether
/// the requested username and e-mail are still unused; the result lists every
/// reason to refuse the request, and is empty exactly when it may go ahead.
pub fn validate_registration(dto: &UserDTO, username_free: bool, email_free: bool) -> (r: Vec<
    RegistrationError,
>)
    ensures
        r@ == registration_errors(dto, username_free, email_free),
        r@.len() == 0 <==> registration_accepted(dto, username_free, email_free),
{
    let mut errors: Vec<RegistrationError> = Vec::new();
    let username_len = dto.username.as_str().len();
    let password_len = dto.password.as_str().len();
    let ghost e0 = errors@;
    if username_len > 128 || username_len < 2 {
        errors.push(RegistrationError::InvalidUsername);
    }
    assert(errors@ =~= e0 + error_if(!username_ok(dto), RegistrationError::InvalidUsername));
    let ghost e1 = errors@;
    if password_len > 50 || password_len < 8 {
        errors.push(RegistrationError::InvalidPassword);
    }
    assert(errors@ =~= e1 + error_if(!password_ok(dto), RegistrationError::InvalidPassword));
    let ghost e2 = errors@;
    if dto.class > 11 || dto.class < 1 {
        errors.push(RegistrationError::InvalidClass);
    }
    assert(errors@ =~= e2 + error_if(!class_ok(dto), RegistrationError::InvalidClass));
    let ghost e3 = errors@;
    if dto.school < 1 {
        errors.push(RegistrationError::InvalidSchoolNumber);
    }
    assert(errors@ =~= e3 + error_if(!school_ok(dto), RegistrationError::InvalidSchoolNumber));
    let ghost e4 = errors@;
    if dto.location_data.city.as_str().is_empty() || dto.location_data.country.as_str().is_empty() {
        errors.push(RegistrationError::InvalidLocation);
    }
    assert(errors@ =~= e4 + error_if(!location_ok(dto), RegistrationError::InvalidLocation));
    let ghost e5 = errors@;
    if !username_free {
        errors.push(RegistrationError::UsernameExistsInDb);
    }
    assert(errors@ =~= e5 + error_if(!username_free, RegistrationError::UsernameExistsInDb));
    let ghost e6 = errors@;
    if !email_free {
        errors.push(RegistrationError::EmailExistsInDB);
    }
    assert(errors@ =~= e6 + error_if(!email_free, RegistrationError::EmailExistsInDB));
    assert(errors@ =~= registration_errors(dto, username_free, email_free));
    errors
}

} // verus!
