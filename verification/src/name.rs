use vstd::prelude::*;

verus! {

/// The entries from `from` up to `to` form a word: a longest stretch without
/// white space, bounded on each side by white space or by an end of the text.
pub open spec fn is_word(space: Seq<bool>, from: int, to: int) -> bool {
    &&& 0 <= from < to <= space.len()
    &&& forall|k: int| from <= k < to ==> !space[k]
    &&& (from == 0 || space[from - 1])
    &&& (to == space.len() || space[to])
}

/// The text holds at least two words.
pub open spec fn has_two_words(space: Seq<bool>) -> bool {
    exists|a: int, b: int, c: int, d: int|
        is_word(space, a, b) && is_word(space, c, d) && a != c
}

/// The text holds a word of fewer than two characters.
pub open spec fn has_short_word(space: Seq<bool>) -> bool {
    exists|a: int, b: int| is_word(space, a, b) && b - a < 2
}

/// A full name: two words or more, each of two characters or more.
pub open spec fn is_full_name(space: Seq<bool>) -> bool {
    has_two_words(space) && !has_short_word(space)
}

/// A word is fixed by where it ends, and by where it begins.
pub proof fn lemma_words_do_not_overlap(space: Seq<bool>, a: int, b: int, c: int, d: int)
    requires
        is_word(space, a, b),
        is_word(space, c, d),
    ensures
        a == c <==> b == d,
        a != c ==> b <= c || d <= a,
{
    if a < c && c < b {
        assert(!space[c - 1]);
    }
    if c < a && a < d {
        assert(!space[a - 1]);
    }
    if a == c && b < d {
        assert(!space[b]);
    }
    if a == c && d < b {
        assert(!space[d]);
    }
}

/// Decides whether a text is a full name, given which of its characters are
/// white space.
pub fn full_name_shape(space: &Vec<bool>) -> (ok: bool)
    ensures
        ok == is_full_name(space@),
{
    let n = space.len();
    let mut i: usize = 0;
    let mut run: usize = 0;
    let mut words: u8 = 0;
    let mut short = false;
    let ghost mut first: (int, int) = (0, 0);
    let ghost mut second: (int, int) = (0, 0);
    let ghost mut brief: (int, int) = (0, 0);
    while i < n
        invariant
            n == space.len(),
            i <= n,
            run <= i,
            words <= 2,
            forall|k: int| i - run <= k < i ==> !space@[k],
            i - run == 0 || space@[i - run - 1],
            words == 0 ==> forall|a: int, b: int| !(is_word(space@, a, b) && b < i),
            words >= 1 ==> is_word(space@, first.0, first.1) && first.1 < i,
            words == 1 ==> forall|a: int, b: int|
                is_word(space@, a, b) && b < i ==> a == first.0,
            words == 2 ==> is_word(space@, second.0, second.1) && second.1 < i && second.0
                != first.0,
            short ==> is_word(space@, brief.0, brief.1) && brief.1 - brief.0 < 2,
            !short ==> forall|a: int, b: int| is_word(space@, a, b) && b < i ==> b - a >= 2,
        decreases n - i,
    {
        if space[i] {
            proof {
                // A word that ends here is the current stretch.
                assert forall|a: int, b: int| is_word(space@, a, b) && b == i implies a == i
                    - run && run > 0 by {
                    if a < i - run {
                        assert(!space@[i - run - 1]);
                    }
                    if a > i - run {
                        assert(!space@[a - 1]);
                    }
                }
            }
            if run > 0 {
                assert(is_word(space@, i - run, i as int));
                if run < 2 {
                    short = true;
                    proof {
                        brief = (i - run, i as int);
                    }
                }
                if words == 0 {
                    words = 1;
                    proof {
                        first = (i - run, i as int);
                    }
                } else if words == 1 {
                    proof {
                        lemma_words_do_not_overlap(space@, first.0, first.1, i - run, i as int);
                        second = (i - run, i as int);
                    }
                    words = 2;
                }
            }
            run = 0;
        } else {
            proof {
                assert forall|a: int, b: int| is_word(space@, a, b) implies b != i by {}
            }
            run = run + 1;
        }
        i = i + 1;
    }
    proof {
        assert forall|a: int, b: int| is_word(space@, a, b) && b == n implies a == n - run && run
            > 0 by {
            if a < n - run {
                assert(!space@[n - run - 1]);
            }
            if a > n - run {
                assert(!space@[a - 1]);
            }
        }
    }
    if run > 0 {
        assert(is_word(space@, n - run, n as int));
        if run < 2 {
            short = true;
            proof {
                brief = (n - run, n as int);
            }
        }
        if words == 0 {
            words = 1;
            proof {
                first = (n - run, n as int);
            }
        } else if words == 1 {
            proof {
                lemma_words_do_not_overlap(space@, first.0, first.1, n - run, n as int);
                second = (n - run, n as int);
            }
            words = 2;
        }
    }
    proof {
        // Every word has been seen by now.
        assert(words == 0 ==> forall|a: int, b: int| !is_word(space@, a, b));
        assert(words == 1 ==> forall|a: int, b: int| is_word(space@, a, b) ==> a == first.0);
        assert(!short ==> forall|a: int, b: int| is_word(space@, a, b) ==> b - a >= 2);
        if words == 2 {
            assert(is_word(space@, first.0, first.1) && is_word(space@, second.0, second.1)
                && first.0 != second.0);
        }
        if short {
            assert(is_word(space@, brief.0, brief.1) && brief.1 - brief.0 < 2);
        }
    }
    words == 2 && !short
}

} // verus!
