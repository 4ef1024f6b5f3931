use vstd::prelude::*;
use crate::text::{
    char_is_lowercase,
    char_is_numeric,
    char_is_uppercase,
    char_is_whitespace,
    chars_of,
};

verus! {

/// The composition rules a candidate password has to satisfy.
#[derive(Debug, Clone)]
pub struct PasswordCriteria {
    /// Least length, in bytes of the UTF-8 encoding.
    pub min_length: usize,
    pub require_uppercase: bool,
    pub require_lowercase: bool,
    pub require_number: bool,
    pub require_special_char: bool,
    /// Whether white space of any kind is turned down.
    pub forbid_whitespace: bool,
    /// Further characters that must not occur.
    pub forbidden_chars: Vec<char>,
}

/// A set of password rules as plain values.
pub struct Rules {
    pub min_length: usize,
    pub require_uppercase: bool,
    pub require_lowercase: bool,
    pub require_number: bool,
    pub require_special_char: bool,
    pub forbid_whitespace: bool,
    pub forbidden_chars: Seq<char>,
}

impl View for PasswordCriteria {
    type V = Rules;

    open spec fn view(&self) -> Rules {
        Rules {
            min_length: self.min_length,
            require_uppercase: self.require_uppercase,
            require_lowercase: self.require_lowercase,
            require_number: self.require_number,
            require_special_char: self.require_special_char,
            forbid_whitespace: self.forbid_whitespace,
            forbidden_chars: self.forbidden_chars@,
        }
    }
}

/// The rules in force unless a caller supplies others: eight bytes at least,
/// one uppercase letter, one digit, and no white space of any kind. Blank,
/// tab and line feed are listed by name as well.
pub open spec fn default_rules() -> Rules {
    Rules {
        min_length: 8,
        require_uppercase: true,
        require_lowercase: false,
        require_number: true,
        require_special_char: false,
        forbid_whitespace: true,
        forbidden_chars: seq![' ', '\t', '\n'],
    }
}

impl Default for PasswordCriteria {
    fn default() -> (criteria: Self)
        ensures
            criteria@ == default_rules(),
    {
        let mut forbidden: Vec<char> = Vec::new();
        forbidden.push(' ');
        forbidden.push('\t');
        forbidden.push('\n');
        assert(forbidden@ =~= seq![' ', '\t', '\n']);
        PasswordCriteria {
            min_length: 8,
            require_uppercase: true,
            require_lowercase: false,
            require_number: true,
            require_special_char: false,
            forbid_whitespace: true,
            forbidden_chars: forbidden,
        }
    }
}

/// What a policy needs to know of a password: its length and which kinds of
/// character occur in it.
#[derive(Debug, Clone, Copy, PartialEq, Eq, Structural)]
pub struct PasswordProfile {
    /// Length in bytes of the UTF-8 encoding.
    pub length: usize,
    pub has_uppercase: bool,
    pub has_lowercase: bool,
    pub has_number: bool,
    pub has_special: bool,
    pub has_whitespace: bool,
    pub has_forbidden: bool,
}

/// The punctuation that counts as a special character.
pub open spec fn is_special_char(c: char) -> bool {
    c == '!' || c == '@' || c == '#' || c == '$' || c == '%' || c == '^' || c == '&' || c == '*'
        || c == '(' || c == ')' || c == '_' || c == '+' || c == '-' || c == '=' || c == '['
        || c == ']' || c == '{' || c == '}' || c == '|' || c == ';' || c == ':' || c == ','
        || c == '.' || c == '<' || c == '>' || c == '?'
}

/// Length of a text in bytes of its UTF-8 encoding.
pub open spec fn byte_length(s: Seq<char>) -> nat {
    vstd::utf8::encode_utf8(s).len()
}

/// The profile of a password against a set of forbidden characters.
pub open spec fn profile_of(password: Seq<char>, forbidden: Seq<char>) -> PasswordProfile {
    PasswordProfile {
        length: byte_length(password) as usize,
        has_uppercase: exists|i: int| 0 <= i < password.len() && char_is_uppercase(password[i]),
        has_lowercase: exists|i: int| 0 <= i < password.len() && char_is_lowercase(password[i]),
        has_number: exists|i: int| 0 <= i < password.len() && char_is_numeric(password[i]),
        has_special: exists|i: int| 0 <= i < password.len() && is_special_char(password[i]),
        has_whitespace: exists|i: int|
            0 <= i < password.len() && char_is_whitespace(password[i]),
        has_forbidden: exists|i: int|
            0 <= i < password.len() && forbidden.contains(#[trigger] password[i]),
    }
}

/// Whether a password with this profile satisfies the criteria. Every rule
/// has to hold; the order in which they are looked at does not matter.
pub open spec fn meets(rules: Rules, profile: PasswordProfile) -> bool {
    &&& profile.length >= rules.min_length
    &&& rules.require_uppercase ==> profile.has_uppercase
    &&& rules.require_lowercase ==> profile.has_lowercase
    &&& rules.require_number ==> profile.has_number
    &&& rules.require_special_char ==> profile.has_special
    &&& rules.forbid_whitespace ==> !profile.has_whitespace
    &&& !profile.has_forbidden
}

/// Whether a password satisfies the criteria.
pub open spec fn password_acceptable(password: Seq<char>, rules: Rules) -> bool {
    meets(rules, profile_of(password, rules.forbidden_chars))
}

/// Tells whether `c` counts as a special character.
pub fn is_special(c: char) -> (b: bool)
    ensures
        b == is_special_char(c),
{
    c == '!' || c == '@' || c == '#' || c == '$' || c == '%' || c == '^' || c == '&' || c == '*'
        || c == '(' || c == ')' || c == '_' || c == '+' || c == '-' || c == '=' || c == '['
        || c == ']' || c == '{' || c == '}' || c == '|' || c == ';' || c == ':' || c == ','
        || c == '.' || c == '<' || c == '>' || c == '?'
}

/// Tells whether `c` occurs in `set`.
pub fn occurs_in(set: &Vec<char>, c: char) -> (b: bool)
    ensures
        b == set@.contains(c),
{
    let mut i: usize = 0;
    while i < set.len()
        invariant
            i <= set.len(),
            forall|j: int| 0 <= j < i ==> set@[j] != c,
        decreases set.len() - i,
    {
        if set[i] == c {
            return true;
        }
        i = i + 1;
    }
    false
}

/// Gathers the profile of a password.
pub fn profile(password: &str, forbidden: &Vec<char>) -> (p: PasswordProfile)
    ensures
        p == profile_of(password@, forbidden@),
{
    let chars = chars_of(password);
    let mut has_uppercase = false;
    let mut has_lowercase = false;
    let mut has_number = false;
    let mut has_special = false;
    let mut has_whitespace = false;
    let mut has_forbidden = false;
    let mut i: usize = 0;
    while i < chars.len()
        invariant
            i <= chars.len(),
            chars@ == password@,
            has_uppercase == exists|j: int| 0 <= j < i && char_is_uppercase(chars@[j]),
            has_lowercase == exists|j: int| 0 <= j < i && char_is_lowercase(chars@[j]),
            has_number == exists|j: int| 0 <= j < i && char_is_numeric(chars@[j]),
            has_special == exists|j: int| 0 <= j < i && is_special_char(chars@[j]),
            has_whitespace == exists|j: int| 0 <= j < i && char_is_whitespace(chars@[j]),
            has_forbidden == exists|j: int|
                0 <= j < i && forbidden@.contains(#[trigger] chars@[j]),
        decreases chars.len() - i,
    {
        let c = chars[i];
        if c.is_uppercase() {
            has_uppercase = true;
        }
        if c.is_lowercase() {
            has_lowercase = true;
        }
        if c.is_numeric() {
            has_number = true;
        }
        if is_special(c) {
            has_special = true;
        }
        if c.is_whitespace() {
            has_whitespace = true;
        }
        if occurs_in(forbidden, c) {
            has_forbidden = true;
        }
        i = i + 1;
    }
    PasswordProfile {
        length: password.len(),
        has_uppercase,
        has_lowercase,
        has_number,
        has_special,
        has_whitespace,
        has_forbidden,
    }
}

/// Decides whether a password with the given profile satisfies the criteria.
pub fn satisfies(criteria: &PasswordCriteria, profile: &PasswordProfile) -> (ok: bool)
    ensures
        ok == meets(criteria@, *profile),
{
    if profile.length < criteria.min_length {
        return false;
    }
    if criteria.require_uppercase && !profile.has_uppercase {
        return false;
    }
    if criteria.require_lowercase && !profile.has_lowercase {
        return false;
    }
    if criteria.require_number && !profile.has_number {
        return false;
    }
    if criteria.require_special_char && !profile.has_special {
        return false;
    }
    if criteria.forbid_whitespace && profile.has_whitespace {
        return false;
    }
    !profile.has_forbidden
}

} // verus!
