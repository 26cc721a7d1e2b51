//! The words a user writes for a setting's value.
use vstd::prelude::*;

use crate::status::{AutoOff, SpeakerOrientation};

verus! {

/// Whether `word` is exactly `expected`.
fn word_is(word: &[u8], expected: &[u8]) -> (r: bool)
    ensures
        r == (word@ == expected@),
{
    if word.len() != expected.len() {
        return false;
    }
    let mut i: usize = 0;
    while i < word.len()
        invariant
            word@.len() == expected@.len(),
            0 <= i <= word@.len(),
            forall|j: int| 0 <= j < i ==> word@[j] == expected@[j],
        decreases word@.len() - i,
    {
        if word[i] != expected[i] {
            return false;
        }
        i = i + 1;
    }
    assert(word@ =~= expected@);
    true
}

/// The auto-off setting a word names: `20`, `60`, and `never` or `off`.
pub open spec fn auto_off_word(word: Seq<u8>) -> Option<AutoOff> {
    if word == seq!['2' as u8, '0' as u8] {
        Some(AutoOff::TwentyMinutes)
    } else if word == seq!['6' as u8, '0' as u8] {
        Some(AutoOff::SixtyMinutes)
    } else if word == seq!['n' as u8, 'e' as u8, 'v' as u8, 'e' as u8, 'r' as u8] || word == seq!['o' as u8, 'f' as u8, 'f' as u8] {
        Some(AutoOff::Never)
    } else {
        None
    }
}

/// Reads an auto-off word; `None` for any other word.
pub fn parse_auto_off(word: &[u8]) -> (r: Option<AutoOff>)
    ensures
        r == auto_off_word(word@),
{
    let twenty = ['2' as u8, '0' as u8];
    let sixty = ['6' as u8, '0' as u8];
    let never = ['n' as u8, 'e' as u8, 'v' as u8, 'e' as u8, 'r' as u8];
    let off = ['o' as u8, 'f' as u8, 'f' as u8];
    assert(twenty@ == seq!['2' as u8, '0' as u8]);
    assert(sixty@ == seq!['6' as u8, '0' as u8]);
    assert(never@ == seq!['n' as u8, 'e' as u8, 'v' as u8, 'e' as u8, 'r' as u8]);
    assert(off@ == seq!['o' as u8, 'f' as u8, 'f' as u8]);
    if word_is(word, &twenty) {
        Some(AutoOff::TwentyMinutes)
    } else if word_is(word, &sixty) {
        Some(AutoOff::SixtyMinutes)
    } else if word_is(word, &never) || word_is(word, &off) {
        Some(AutoOff::Never)
    } else {
        None
    }
}

/// The orientation a word names: `left` or `right`, the side of the main
/// speaker.
pub open spec fn orientation_word(word: Seq<u8>) -> Option<SpeakerOrientation> {
    if word == seq!['l' as u8, 'e' as u8, 'f' as u8, 't' as u8] {
        Some(SpeakerOrientation::MainIsLeft)
    } else if word == seq!['r' as u8, 'i' as u8, 'g' as u8, 'h' as u8, 't' as u8] {
        Some(SpeakerOrientation::MainIsRight)
    } else {
        None
    }
}

/// Reads an orientation word; `None` for any other word.
pub fn parse_orientation(word: &[u8]) -> (r: Option<SpeakerOrientation>)
    ensures
        r == orientation_word(word@),
{
    let left = ['l' as u8, 'e' as u8, 'f' as u8, 't' as u8];
    let right = ['r' as u8, 'i' as u8, 'g' as u8, 'h' as u8, 't' as u8];
    assert(left@ == seq!['l' as u8, 'e' as u8, 'f' as u8, 't' as u8]);
    assert(right@ == seq!['r' as u8, 'i' as u8, 'g' as u8, 'h' as u8, 't' as u8]);
    if word_is(word, &left) {
        Some(SpeakerOrientation::MainIsLeft)
    } else if word_is(word, &right) {
        Some(SpeakerOrientation::MainIsRight)
    } else {
        None
    }
}

} // verus!
