//! Patterns for file names: `*` stands for any run of characters, `?` for
//! any one character, and every other character for itself.

use vstd::prelude::*;
use crate::text::chars_of;

verus! {

/// Whether `name` from place `i` on fits `mask` from place `j` on.
pub open spec fn fits_from(name: Seq<char>, mask: Seq<char>, i: int, j: int) -> bool
    decreases mask.len() - j, name.len() - i,
{
    if j >= mask.len() {
        i >= name.len()
    } else if mask[j] == '*' {
        fits_from(name, mask, i, j + 1) || (i < name.len() && fits_from(name, mask, i + 1, j))
    } else {
        i < name.len() && (mask[j] == '?' || mask[j] == name[i]) && fits_from(
            name,
            mask,
            i + 1,
            j + 1,
        )
    }
}

/// Whether a file name fits a pattern.
pub open spec fn fits(name: Seq<char>, mask: Seq<char>) -> bool {
    fits_from(name, mask, 0, 0)
}

fn matches_from(name: &Vec<char>, mask: &Vec<char>, i: usize, j: usize) -> (fit: bool)
    requires
        i <= name@.len(),
        j <= mask@.len(),
    ensures
        fit == fits_from(name@, mask@, i as int, j as int),
    decreases mask@.len() - j, name@.len() - i,
{
    if j >= mask.len() {
        i >= name.len()
    } else if mask[j] == '*' {
        if matches_from(name, mask, i, j + 1) {
            true
        } else {
            i < name.len() && matches_from(name, mask, i + 1, j)
        }
    } else {
        i < name.len() && (mask[j] == '?' || mask[j] == name[i]) && matches_from(
            name,
            mask,
            i + 1,
            j + 1,
        )
    }
}

/// Whether a file name fits a pattern.
pub fn mask_matches(name: &str, mask: &str) -> (fit: bool)
    ensures
        fit == fits(name@, mask@),
{
    let name_chars: Vec<char> = chars_of(name);
    let mask_chars: Vec<char> = chars_of(mask);
    matches_from(&name_chars, &mask_chars, 0, 0)
}

/// The pattern `*` fits every name, from every place on.
pub proof fn law_star_fits_all(name: Seq<char>, i: int)
    requires
        0 <= i <= name.len(),
    ensures
        fits_from(name, seq!['*'], i, 0),
    decreases name.len() - i,
{
    reveal_with_fuel(fits_from, 3);
    if i < name.len() {
        law_star_fits_all(name, i + 1);
    }
}

} // verus!
