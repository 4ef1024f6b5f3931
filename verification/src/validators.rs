use vstd::prelude::*;
use vstd::string::StrSliceExecFns;
use vstd::string::StringExecFns;
use crate::email::{
    is_address,
    is_address_split_at,
    is_domain_char,
    is_letter,
    is_local_char,
    matches_address,
};
use crate::error::UserError;
use crate::name::{full_name_shape, is_full_name, is_word, lemma_words_do_not_overlap};
use crate::password::{
    byte_length,
    default_rules,
    password_acceptable,
    profile,
    satisfies,
    PasswordCriteria,
    Rules,
};
use crate::text::{
    char_is_whitespace,
    chars_of,
    lemma_trim_bounds,
    space_mask,
    str_to_lowercase,
    trim_bounds,
    trimmed,
    whitespace_mask,
};

verus! {

/// Checks of what a person types when registering.
pub struct UserValidator;

/// Checks of what a person types when logging in.
pub struct LoginValidator;

/// Registration input that has passed every check. The password is still
/// the plain text and is meant to be hashed at once.
pub struct ValidatedUserData {
    pub name: String,
    pub email: String,
    pub password: String,
}

/// Login input that has passed the checks made before the lookup.
#[derive(Debug)]
pub struct ValidatedLoginData {
    pub email: String,
    pub password: String,
}

/// A name is accepted when it holds two words or more, each of two
/// characters or more.
pub open spec fn name_is_acceptable(name: Seq<char>) -> bool {
    is_full_name(space_mask(name))
}

/// The form under which an e-mail address is stored and looked up: without
/// surrounding white space, in lowercase.
pub open spec fn canonical_email(raw: Seq<char>) -> Seq<char> {
    str_to_lowercase(trimmed(raw))
}

/// An e-mail address is accepted when its canonical form reads `local@domain.tld`.
pub open spec fn email_is_acceptable(raw: Seq<char>) -> bool {
    is_address(canonical_email(raw))
}

/// Why a canonical e-mail address that is no address was turned down.
pub open spec fn email_defect(canonical: Seq<char>) -> Seq<char> {
    if canonical.len() == 0 {
        "Email can't be  empty"@
    } else {
        "Not a valid email"@
    }
}

/// All three registration inputs are accepted.
pub open spec fn registration_acceptable(
    name: Seq<char>,
    email: Seq<char>,
    password: Seq<char>,
) -> bool {
    &&& name_is_acceptable(name)
    &&& email_is_acceptable(email)
    &&& password_acceptable(password, default_rules())
}

/// `e` is the error owed for registration inputs that are not accepted: the
/// first defect in the order name, e-mail address, password.
pub open spec fn is_registration_defect(
    name: Seq<char>,
    email: Seq<char>,
    password: Seq<char>,
    e: UserError,
) -> bool {
    if !name_is_acceptable(name) {
        e is InvalidName
    } else if !email_is_acceptable(email) {
        e.is_invalid_email(email_defect(canonical_email(email)))
    } else {
        !password_acceptable(password, default_rules()) && e is WeakPassword
    }
}

/// What `validade_user_data` answers for the three inputs.
pub open spec fn registration_verdict(
    name: Seq<char>,
    email: Seq<char>,
    password: Seq<char>,
    outcome: Result<ValidatedUserData, UserError>,
) -> bool {
    match outcome {
        Ok(data) => {
            &&& registration_acceptable(name, email, password)
            &&& data.name@ == trimmed(name)
            &&& data.email@ == canonical_email(email)
            &&& data.password@ == password
        },
        Err(e) => !registration_acceptable(name, email, password) && is_registration_defect(
            name,
            email,
            password,
            e,
        ),
    }
}

/// What `validate_login_data` answers for the two inputs.
pub open spec fn login_verdict(
    email: Seq<char>,
    password: Seq<char>,
    outcome: Result<ValidatedLoginData, UserError>,
) -> bool {
    match outcome {
        Ok(data) => {
            &&& email_is_acceptable(email)
            &&& password.len() > 0
            &&& data.email@ == canonical_email(email)
            &&& data.password@ == password
        },
        Err(e) => {
            if !email_is_acceptable(email) {
                e.is_invalid_email(email_defect(canonical_email(email)))
            } else {
                password.len() == 0 && e is InvalidCredentials
            }
        },
    }
}

/// Two e-mail addresses whose trimmed texts agree once in lowercase, as two
/// spellings of one address that differ only in case do, have the same
/// canonical form and meet the same fate: both are accepted, or both are
/// turned down for the same reason. So the store sees one address, not two.
pub proof fn lemma_case_does_not_matter(first: Seq<char>, second: Seq<char>)
    requires
        str_to_lowercase(trimmed(first)) == str_to_lowercase(trimmed(second)),
    ensures
        canonical_email(first) == canonical_email(second),
        email_is_acceptable(first) == email_is_acceptable(second),
        email_defect(canonical_email(first)) == email_defect(canonical_email(second)),
{
}

/// The name that is kept of an accepted name neither begins nor ends with
/// white space, and is at least five characters long: two words of two
/// characters and what parts them.
pub proof fn lemma_kept_name_is_trimmed(name: Seq<char>)
    requires
        name_is_acceptable(name),
    ensures
        trimmed(name).len() >= 5,
        !char_is_whitespace(trimmed(name).first()),
        !char_is_whitespace(trimmed(name).last()),
{
    let space = space_mask(name);
    lemma_trim_bounds(space);
    let (a, b, c, d) = choose|a: int, b: int, c: int, d: int|
        is_word(space, a, b) && is_word(space, c, d) && a != c;
    lemma_words_do_not_overlap(space, a, b, c, d);
    assert(b - a >= 2 && d - c >= 2);
    // Both words lie within the trimmed range, and white space parts them.
    assert(!space[a] && !space[b - 1] && !space[c] && !space[d - 1]);
    if b <= c {
        assert(space[b]);
    } else {
        assert(space[d]);
    }
}

/// An address is at least six characters long and holds nothing but ASCII
/// letters, digits and the signs `.`, `_`, `%`, `+`, `-` and `@`; the `@`
/// occurs once.
pub proof fn lemma_address_is_plain(address: Seq<char>)
    requires
        is_address(address),
    ensures
        address.len() >= 6,
        forall|i: int|
            0 <= i < address.len() ==> is_local_char(#[trigger] address[i]) || address[i] == '@',
        forall|i: int, j: int|
            0 <= i < address.len() && 0 <= j < address.len() && address[i] == '@' && address[j]
                == '@' ==> i == j,
{
    let (at, dot) = choose|at: int, dot: int| is_address_split_at(address, at, dot);
    assert forall|i: int| 0 <= i < address.len() implies is_local_char(#[trigger] address[i])
        || address[i] == '@' by {
        if at < i < dot {
            assert(is_domain_char(address[i]));
        }
        if dot < i {
            assert(is_letter(address[i]));
        }
    }
    assert forall|i: int|
        0 <= i < address.len() && address[i] == '@' implies i == at by {
        if i < at {
            assert(is_local_char(address[i]));
        }
        if at < i < dot {
            assert(is_domain_char(address[i]));
        }
        if dot < i {
            assert(is_letter(address[i]));
        }
    }
}

/// Under the default rules a password that holds white space of any kind,
/// anywhere, is not accepted.
pub proof fn lemma_default_forbids_whitespace(password: Seq<char>, at: int)
    requires
        0 <= at < password.len(),
        char_is_whitespace(password[at]),
    ensures
        !password_acceptable(password, default_rules()),
{
}

/// A password shorter than the least length is not accepted, whatever else
/// the rules ask for and whatever the password holds.
pub proof fn lemma_short_password_is_weak(password: Seq<char>, rules: Rules)
    requires
        byte_length(password) < rules.min_length,
    ensures
        !password_acceptable(password, rules),
{
}

/// Accepts a canonical e-mail address that reads `local@domain.tld` and
/// hands it back; turns down any other, saying whether it was empty.
pub fn check_canonical_email(canonical: String) -> (outcome: Result<String, UserError>)
    ensures
        match outcome {
            Ok(email) => email@ == canonical@ && is_address(canonical@),
            Err(e) => !is_address(canonical@) && e.is_invalid_email(email_defect(canonical@)),
        },
{
    let chars = chars_of(canonical.as_str());
    if chars.len() == 0 {
        assert(!is_address(canonical@));
        return Err(UserError::InvalidEmail(String::from_str("Email can't be  empty")));
    }
    if !matches_address(&chars) {
        return Err(UserError::InvalidEmail(String::from_str("Not a valid email")));
    }
    Ok(canonical)
}

impl UserValidator {
    /// Trims the name and accepts it if it is a full name.
    pub fn validate_name(name: &str) -> (outcome: Result<String, UserError>)
        ensures
            match outcome {
                Ok(kept) => name_is_acceptable(name@) && kept@ == trimmed(name@),
                Err(e) => !name_is_acceptable(name@) && e is InvalidName,
            },
    {
        let chars = chars_of(name);
        let mask = whitespace_mask(&chars);
        if !full_name_shape(&mask) {
            return Err(UserError::InvalidName);
        }
        let (start, end) = trim_bounds(&mask);
        Ok(String::from_str(name.substring_char(start, end)))
    }

    /// Brings an e-mail address into its canonical form and accepts it if
    /// that form reads `local@domain.tld`.
    pub fn validate_email(email: &str) -> (outcome: Result<String, UserError>)
        ensures
            match outcome {
                Ok(kept) => email_is_acceptable(email@) && kept@ == canonical_email(email@),
                Err(e) => !email_is_acceptable(email@) && e.is_invalid_email(
                    email_defect(canonical_email(email@)),
                ),
            },
    {
        let chars = chars_of(email);
        let mask = whitespace_mask(&chars);
        let (start, end) = trim_bounds(&mask);
        let canonical = email.substring_char(start, end).to_lowercase();
        check_canonical_email(canonical)
    }

    /// Checks a password against the default rules.
    pub fn validate_password(password: &str) -> (outcome: Result<(), UserError>)
        ensures
            outcome is Ok <==> password_acceptable(password@, default_rules()),
            outcome matches Err(e) ==> e is WeakPassword,
            byte_length(password@) < 8 ==> outcome is Err,
            (exists|i: int| 0 <= i < password@.len() && char_is_whitespace(password@[i]))
                ==> outcome is Err,
    {
        Self::validade_passoword_with_criteria(password, PasswordCriteria::default())
    }

    /// Checks a password against the given rules. Every rule is looked at;
    /// whichever fails, the answer is `WeakPassword`.
    pub fn validade_passoword_with_criteria(password: &str, criteria: PasswordCriteria) -> (outcome:
        Result<(), UserError>)
        ensures
            outcome is Ok <==> password_acceptable(password@, criteria@),
            outcome matches Err(e) ==> e is WeakPassword,
            byte_length(password@) < criteria.min_length ==> outcome is Err,
    {
        let gathered = profile(password, &criteria.forbidden_chars);
        if satisfies(&criteria, &gathered) {
            Ok(())
        } else {
            Err(UserError::WeakPassword)
        }
    }

    /// Checks name, e-mail address and password, in this order, and reports
    /// the first defect.
    pub fn validade_user_data(name: &str, email: &str, password: &str) -> (outcome: Result<
        ValidatedUserData,
        UserError,
    >)
        ensures
            registration_verdict(name@, email@, password@, outcome),
    {
        let valid_name = match Self::validate_name(name) {
            Ok(kept) => kept,
            Err(e) => {
                return Err(e);
            },
        };
        let valid_email = match Self::validate_email(email) {
            Ok(kept) => kept,
            Err(e) => {
                return Err(e);
            },
        };
        match Self::validate_password(password) {
            Ok(_) => {},
            Err(e) => {
                return Err(e);
            },
        }
        Ok(
            ValidatedUserData {
                name: valid_name,
                email: valid_email,
                password: String::from_str(password),
            },
        )
    }
}

impl LoginValidator {
    /// Brings the e-mail address into its canonical form and makes sure that
    /// a password was given at all; whether it is the right one is decided
    /// against the stored hash.
    pub fn validate_login_data(email: &str, password: &str) -> (outcome: Result<
        ValidatedLoginData,
        UserError,
    >)
        ensures
            login_verdict(email@, password@, outcome),
    {
        let valid_email = match UserValidator::validate_email(email) {
            Ok(kept) => kept,
            Err(e) => {
                return Err(e);
            },
        };
        if password.is_empty() {
            return Err(UserError::InvalidCredentials);
        }
        Ok(ValidatedLoginData { email: valid_email, password: String::from_str(password) })
    }
}

} // verus!
