use vstd::prelude::*;

verus! {

/// Whether a character carries the Unicode `White_Space` property.
pub uninterp spec fn char_is_whitespace(c: char) -> bool;

/// Whether a character carries the Unicode `Uppercase` property.
pub uninterp spec fn char_is_uppercase(c: char) -> bool;

/// Whether a character carries the Unicode `Lowercase` property.
pub uninterp spec fn char_is_lowercase(c: char) -> bool;

/// Whether a character is in one of the Unicode numeric categories `Nd`, `Nl`, `No`.
pub uninterp spec fn char_is_numeric(c: char) -> bool;

/// The Unicode lowercase equivalent of a string.
pub uninterp spec fn str_to_lowercase(s: Seq<char>) -> Seq<char>;

/// `char::is_whitespace` reports the `White_Space` property of the character,
/// which depends on the character alone.
pub assume_specification[ char::is_whitespace ](c: char) -> (b: bool)
    ensures
        b == char_is_whitespace(c),
;

/// `char::is_uppercase` reports the `Uppercase` property of the character.
pub assume_specification[ char::is_uppercase ](c: char) -> (b: bool)
    ensures
        b == char_is_uppercase(c),
;

/// `char::is_lowercase` reports the `Lowercase` property of the character.
pub assume_specification[ char::is_lowercase ](c: char) -> (b: bool)
    ensures
        b == char_is_lowercase(c),
;

/// `char::is_numeric` reports whether the character is in a numeric category.
pub assume_specification[ char::is_numeric ](c: char) -> (b: bool)
    ensures
        b == char_is_numeric(c),
;

/// `str::to_lowercase` returns the lowercase equivalent of the slice as a new
/// string; the result depends on the characters of the slice alone.
pub assume_specification[ str::to_lowercase ](s: &str) -> (lowered: String)
    ensures
        lowered@ == str_to_lowercase(s@),
;

/// For each character, whether it is white space.
pub open spec fn space_mask(s: Seq<char>) -> Seq<bool> {
    Seq::new(s.len(), |i: int| char_is_whitespace(s[i]))
}

/// Index of the first entry at or after `from` that is not white space;
/// the length of `space` if there is none.
pub open spec fn skip_space(space: Seq<bool>, from: int) -> int
    decreases space.len() - from,
{
    if 0 <= from < space.len() && space[from] {
        skip_space(space, from + 1)
    } else {
        from
    }
}

/// One past the last entry before `to` that is not white space, never below `floor`.
pub open spec fn skip_space_back(space: Seq<bool>, to: int, floor: int) -> int
    decreases to,
{
    if 0 <= floor < to <= space.len() && space[to - 1] {
        skip_space_back(space, to - 1, floor)
    } else {
        to
    }
}

/// Where the text without its leading white space begins.
pub open spec fn trim_start(space: Seq<bool>) -> int {
    skip_space(space, 0)
}

/// Where the text without its trailing white space ends.
pub open spec fn trim_end(space: Seq<bool>) -> int {
    skip_space_back(space, space.len() as int, trim_start(space))
}

/// A string without its leading and trailing white space.
pub open spec fn trimmed(s: Seq<char>) -> Seq<char> {
    s.subrange(trim_start(space_mask(s)), trim_end(space_mask(s)))
}

/// `skip_space` stays within the sequence, passes only white space and stops
/// at something else.
pub proof fn lemma_skip_space(space: Seq<bool>, from: int)
    requires
        0 <= from <= space.len(),
    ensures
        from <= skip_space(space, from) <= space.len(),
        forall|i: int| from <= i < skip_space(space, from) ==> space[i],
        skip_space(space, from) < space.len() ==> !space[skip_space(space, from)],
    decreases space.len() - from,
{
    if from < space.len() && space[from] {
        lemma_skip_space(space, from + 1);
    }
}

/// `skip_space_back` stays between `floor` and `to`, passes only white space
/// and stops behind something else.
pub proof fn lemma_skip_space_back(space: Seq<bool>, to: int, floor: int)
    requires
        0 <= floor <= to <= space.len(),
    ensures
        floor <= skip_space_back(space, to, floor) <= to,
        forall|i: int| skip_space_back(space, to, floor) <= i < to ==> space[i],
        floor < skip_space_back(space, to, floor) ==> !space[skip_space_back(space, to, floor) - 1],
    decreases to,
{
    if floor < to && space[to - 1] {
        lemma_skip_space_back(space, to - 1, floor);
    }
}

/// The trimmed range is well placed: only white space lies outside it, and
/// unless it is empty it begins and ends with something else.
pub proof fn lemma_trim_bounds(space: Seq<bool>)
    ensures
        0 <= trim_start(space) <= trim_end(space) <= space.len(),
        forall|i: int| 0 <= i < trim_start(space) ==> space[i],
        forall|i: int| trim_end(space) <= i < space.len() ==> space[i],
        trim_start(space) < trim_end(space) ==> !space[trim_start(space)] && !space[trim_end(
            space,
        ) - 1],
{
    lemma_skip_space(space, 0);
    lemma_skip_space_back(space, space.len() as int, trim_start(space));
}

/// The characters of a string slice, in order.
pub fn chars_of(s: &str) -> (v: Vec<char>)
    ensures
        v@ == s@,
{
    let mut v: Vec<char> = Vec::new();
    for c in it: s.chars()
        invariant
            v@ == it.seq().take(it.index() as int),
            it.seq() == s@,
    {
        v.push(c);
    }
    v
}

/// Marks the white-space characters of a text.
pub fn whitespace_mask(chars: &Vec<char>) -> (mask: Vec<bool>)
    ensures
        mask@ == space_mask(chars@),
{
    let mut mask: Vec<bool> = Vec::new();
    let mut i: usize = 0;
    while i < chars.len()
        invariant
            i <= chars.len(),
            mask@ == space_mask(chars@).take(i as int),
        decreases chars.len() - i,
    {
        mask.push(chars[i].is_whitespace());
        i = i + 1;
        assert(mask@ =~= space_mask(chars@).take(i as int));
    }
    assert(mask@ =~= space_mask(chars@));
    mask
}

/// The range that is left of a text when leading and trailing white space is
/// dropped, given which of its characters are white space.
pub fn trim_bounds(space: &Vec<bool>) -> (range: (usize, usize))
    ensures
        range.0 == trim_start(space@),
        range.1 == trim_end(space@),
        range.0 <= range.1 <= space.len(),
{
    let mut start: usize = 0;
    while start < space.len() && space[start]
        invariant
            start <= space.len(),
            skip_space(space@, 0) == skip_space(space@, start as int),
        decreases space.len() - start,
    {
        start = start + 1;
    }
    let mut end: usize = space.len();
    while start < end && space[end - 1]
        invariant
            start <= end <= space.len(),
            skip_space_back(space@, space.len() as int, start as int) == skip_space_back(
                space@,
                end as int,
                start as int,
            ),
        decreases end,
    {
        end = end - 1;
    }
    (start, end)
}

} // verus!
