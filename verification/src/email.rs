use vstd::prelude::*;

verus! {

/// An ASCII letter.
pub open spec fn is_letter(c: char) -> bool {
    ('a' <= c && c <= 'z') || ('A' <= c && c <= 'Z')
}

/// An ASCII letter or digit.
pub open spec fn is_alphanumeric(c: char) -> bool {
    is_letter(c) || ('0' <= c && c <= '9')
}

/// A character allowed before the `@`.
pub open spec fn is_local_char(c: char) -> bool {
    is_alphanumeric(c) || c == '.' || c == '_' || c == '%' || c == '+' || c == '-'
}

/// A character allowed between the `@` and the last dot.
pub open spec fn is_domain_char(c: char) -> bool {
    is_alphanumeric(c) || c == '.' || c == '-'
}

/// `s` reads `local@domain.tld` with its `@` at index `at` and the dot before
/// the top-level domain at index `dot`: a non-empty local part, a non-empty
/// domain, and a top-level domain of at least two letters.
pub open spec fn is_address_split_at(s: Seq<char>, at: int, dot: int) -> bool {
    &&& 0 < at
    &&& at + 1 < dot
    &&& dot + 2 < s.len()
    &&& s[at] == '@'
    &&& s[dot] == '.'
    &&& forall|i: int| 0 <= i < at ==> is_local_char(#[trigger] s[i])
    &&& forall|i: int| at < i < dot ==> is_domain_char(#[trigger] s[i])
    &&& forall|i: int| dot < i < s.len() ==> is_letter(#[trigger] s[i])
}

/// `s` has the form `local@domain.tld`.
pub open spec fn is_address(s: Seq<char>) -> bool {
    exists|at: int, dot: int| is_address_split_at(s, at, dot)
}

/// In an address the `@` is the first one of the text and the dot before the
/// top-level domain is the last one, so the split is unique.
pub proof fn lemma_split_is_unique(s: Seq<char>, at: int, dot: int)
    requires
        is_address_split_at(s, at, dot),
    ensures
        forall|i: int| 0 <= i < at ==> s[i] != '@',
        forall|i: int| dot < i < s.len() ==> s[i] != '.',
        forall|a: int, d: int| is_address_split_at(s, a, d) ==> a == at && d == dot,
{
    assert forall|i: int| 0 <= i < at implies s[i] != '@' by {
        assert(is_local_char(s[i]));
    }
    assert forall|i: int| dot < i < s.len() implies s[i] != '.' by {
        assert(is_letter(s[i]));
    }
    assert forall|a: int, d: int| is_address_split_at(s, a, d) implies a == at && d == dot by {
        if a < at {
            assert(is_local_char(s[a]));
        }
        if at < a {
            assert(is_local_char(s[at]));
        }
        if d < dot {
            assert(is_letter(s[dot]));
        }
        if dot < d {
            assert(is_letter(s[d]));
        }
    }
}

/// Tells whether `c` is an ASCII letter.
pub fn letter(c: char) -> (b: bool)
    ensures
        b == is_letter(c),
{
    ('a' <= c && c <= 'z') || ('A' <= c && c <= 'Z')
}

/// Tells whether `c` is an ASCII letter or digit.
pub fn alphanumeric(c: char) -> (b: bool)
    ensures
        b == is_alphanumeric(c),
{
    letter(c) || ('0' <= c && c <= '9')
}

/// Tells whether `c` may stand before the `@`.
pub fn local_char(c: char) -> (b: bool)
    ensures
        b == is_local_char(c),
{
    alphanumeric(c) || c == '.' || c == '_' || c == '%' || c == '+' || c == '-'
}

/// Tells whether `c` may stand between the `@` and the last dot.
pub fn domain_char(c: char) -> (b: bool)
    ensures
        b == is_domain_char(c),
{
    alphanumeric(c) || c == '.' || c == '-'
}

/// Index of the first `@`, if there is one.
pub fn first_at_sign(s: &Vec<char>) -> (found: Option<usize>)
    ensures
        match found {
            Some(at) => at < s.len() && s@[at as int] == '@' && forall|i: int|
                0 <= i < at ==> s@[i] != '@',
            None => forall|i: int| 0 <= i < s.len() ==> s@[i] != '@',
        },
{
    let mut i: usize = 0;
    while i < s.len()
        invariant
            i <= s.len(),
            forall|j: int| 0 <= j < i ==> s@[j] != '@',
        decreases s.len() - i,
    {
        if s[i] == '@' {
            return Some(i);
        }
        i = i + 1;
    }
    None
}

/// Index of the last dot, if there is one.
pub fn last_dot(s: &Vec<char>) -> (found: Option<usize>)
    ensures
        match found {
            Some(dot) => dot < s.len() && s@[dot as int] == '.' && forall|i: int|
                dot < i < s.len() ==> s@[i] != '.',
            None => forall|i: int| 0 <= i < s.len() ==> s@[i] != '.',
        },
{
    let mut i: usize = s.len();
    while i > 0
        invariant
            i <= s.len(),
            forall|j: int| i <= j < s.len() ==> s@[j] != '.',
        decreases i,
    {
        i = i - 1;
        if s[i] == '.' {
            return Some(i);
        }
    }
    None
}

/// Decides whether a text has the form `local@domain.tld`.
pub fn matches_address(s: &Vec<char>) -> (ok: bool)
    ensures
        ok == is_address(s@),
{
    let at = match first_at_sign(s) {
        Some(at) => at,
        None => {
            assert forall|a: int, d: int| !is_address_split_at(s@, a, d) by {}
            return false;
        },
    };
    let dot = match last_dot(s) {
        Some(dot) => dot,
        None => {
            assert forall|a: int, d: int| !is_address_split_at(s@, a, d) by {}
            return false;
        },
    };
    proof {
        // Any split of `s` has to use these two positions.
        assert forall|a: int, d: int| is_address_split_at(s@, a, d) implies a == at && d == dot by {
            lemma_split_is_unique(s@, a, d);
        }
    }
    if at == 0 || dot <= at + 1 || s.len() - dot <= 2 {
        return false;
    }
    let mut i: usize = 0;
    while i < at
        invariant
            i <= at < s.len(),
            forall|a: int, d: int| is_address_split_at(s@, a, d) ==> a == at && d == dot,
            forall|j: int| 0 <= j < i ==> is_local_char(#[trigger] s@[j]),
        decreases at - i,
    {
        if !local_char(s[i]) {
            return false;
        }
        i = i + 1;
    }
    i = at + 1;
    while i < dot
        invariant
            at < i <= dot < s.len(),
            forall|a: int, d: int| is_address_split_at(s@, a, d) ==> a == at && d == dot,
            forall|j: int| at < j < i ==> is_domain_char(#[trigger] s@[j]),
        decreases dot - i,
    {
        if !domain_char(s[i]) {
            return false;
        }
        i = i + 1;
    }
    i = dot + 1;
    while i < s.len()
        invariant
            dot < i <= s.len(),
            forall|a: int, d: int| is_address_split_at(s@, a, d) ==> a == at && d == dot,
            forall|j: int| dot < j < i ==> is_letter(#[trigger] s@[j]),
        decreases s.len() - i,
    {
        if !letter(s[i]) {
            return false;
        }
        i = i + 1;
    }
    assert(is_address_split_at(s@, at as int, dot as int));
    true
}

} // verus!
