//! Word lists: adjectives followed by a noun, drawn from a random name
//! generator.

use crate::text::{
    first_segment, first_segment_of, lemma_well_segmented, second_segment, second_segment_of,
    texts, well_segmented,
};
use vstd::prelude::*;

verus! {

/// `Generator::default` and `Generator::next` of the names crate: one name
/// from a generator of plain names over the crate's own lists of adjectives
/// and nouns. The generator never runs dry, and a plain name is an
/// adjective and a noun from those lists joined by a hyphen. Every word of
/// the lists is made of lower-case letters and single hyphens and neither
/// begins nor ends with a hyphen, so every name is made of two or more
/// non-empty segments. Which name comes is random.
#[verifier::external_body]
fn random_name() -> (name: Option<String>)
    ensures
        name is Some,
        well_segmented(name.unwrap()@),
{
    names::Generator::default().next()
}

/// How many names go into a list of `count` words: the last name gives two
/// words, every other name one.
pub open spec fn names_needed(count: u32) -> nat {
    if count <= 1 {
        count as nat
    } else {
        (count - 1) as nat
    }
}

/// The list of `count` words taken from `names`.
///
/// A single word is the second segment of the one name. A longer list is
/// the first segment of every name, followed by the second segment of the
/// last name.
pub open spec fn picked_words(count: u32, names: Seq<Seq<char>>) -> Seq<Seq<char>> {
    if count == 1 {
        seq![second_segment(names[0])]
    } else {
        Seq::new(
            count as nat,
            |i: int|
                if i < count - 1 {
                    first_segment(names[i])
                } else {
                    second_segment(names[count - 2])
                },
        )
    }
}

/// A list picked from well-segmented names has exactly `count` words, none
/// of them empty.
pub proof fn lemma_picked_words(count: u32, names: Seq<Seq<char>>)
    requires
        names.len() == names_needed(count),
        forall|i: int| 0 <= i < names.len() ==> well_segmented(#[trigger] names[i]),
    ensures
        picked_words(count, names).len() == count,
        forall|i: int| 0 <= i < count ==> (#[trigger] picked_words(count, names)[i]).len() > 0,
{
    assert forall|i: int| 0 <= i < count implies (#[trigger] picked_words(count, names)[i]).len()
        > 0 by {
        if count == 1 {
            lemma_well_segmented(names[0]);
        } else if i < count - 1 {
            lemma_well_segmented(names[i]);
        } else {
            lemma_well_segmented(names[count - 2]);
        }
    }
}

/// Returns a list of `count` words, picked from random names as
/// `picked_words` says: adjectives followed by a noun, where the names are
/// plain. There are exactly `count` words, and none is empty.
pub fn generate_words(count: u32) -> (words: Vec<String>)
    ensures
        exists|names: Seq<Seq<char>>|
            {
                &&& names.len() == names_needed(count)
                &&& forall|i: int| 0 <= i < names.len() ==> well_segmented(#[trigger] names[i])
                &&& texts(words@) == #[trigger] picked_words(count, names)
            },
        words@.len() == count,
        forall|i: int| 0 <= i < count ==> (#[trigger] words@[i])@.len() > 0,
{
    let mut words: Vec<String> = Vec::new();
    let ghost mut names: Seq<Seq<char>> = Seq::empty();
    if count == 1 {
        let name = random_name().unwrap();
        words.push(second_segment_of(name.as_str()));
        proof {
            names = seq![name@];
        }
    } else if count >= 2 {
        let mut i: u32 = 2;
        while i < count
            invariant
                2 <= i <= count,
                words@.len() == i - 2,
                names.len() == i - 2,
                forall|j: int| 0 <= j < names.len() ==> well_segmented(#[trigger] names[j]),
                forall|j: int|
                    0 <= j < i - 2 ==> (#[trigger] words@[j])@ == first_segment(names[j]),
            decreases count - i,
        {
            let name = random_name().unwrap();
            words.push(first_segment_of(name.as_str()));
            proof {
                names = names.push(name@);
            }
            i += 1;
        }
        let name = random_name().unwrap();
        words.push(first_segment_of(name.as_str()));
        words.push(second_segment_of(name.as_str()));
        proof {
            names = names.push(name@);
        }
    }
    proof {
        assert(texts(words@) =~= picked_words(count, names));
        lemma_picked_words(count, names);
        assert forall|i: int| 0 <= i < count implies (#[trigger] words@[i])@.len() > 0 by {
            assert(texts(words@)[i] == words@[i]@);
        }
    }
    words
}

} // verus!
