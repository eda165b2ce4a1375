//! A payload-free enumeration in its two forms: the one the caller can see
//! into, and the one it only holds by handle.
use vstd::prelude::*;
use vstd::string::*;

verus! {

/// The form with a fixed layout: a small tag, `Male` first, whose order is part of the contract.
#[derive(Debug, PartialEq, Eq, Clone, Copy, Structural)]
pub enum CGender {
    Male,
    Female,
    Unknown,
}

impl CGender {
    /// The tag under which a variant crosses the boundary.
    pub open spec fn tag_of(self) -> u8 {
        match self {
            CGender::Male => 0,
            CGender::Female => 1,
            CGender::Unknown => 2,
        }
    }

    /// The variant that a tag stands for. A tag that names no variant stands for `Unknown`.
    pub open spec fn of_tag(tag: u8) -> CGender {
        if tag == 0 {
            CGender::Male
        } else if tag == 1 {
            CGender::Female
        } else {
            CGender::Unknown
        }
    }

    /// The tag under which this variant crosses the boundary.
    pub fn tag(&self) -> (tag: u8)
        ensures
            tag == self.tag_of(),
            CGender::of_tag(tag) == *self,
    {
        match self {
            CGender::Male => 0,
            CGender::Female => 1,
            CGender::Unknown => 2,
        }
    }

    /// The variant that a tag stands for. A tag that names no variant stands for `Unknown`.
    pub fn from_tag(tag: u8) -> (gender: CGender)
        ensures
            gender == CGender::of_tag(tag),
    {
        if tag == 0 {
            CGender::Male
        } else if tag == 1 {
            CGender::Female
        } else {
            CGender::Unknown
        }
    }
}

/// The form that lives on the core's side and crosses only behind a box.
#[derive(Debug, PartialEq, Eq, Clone, Copy, Structural)]
pub enum Gender {
    Male,
    Female,
    Unknown,
}

/// A character with the ASCII capitals `A` to `Z` turned into `a` to `z`.
pub open spec fn lower_char(c: char) -> char {
    if 'A' <= c && c <= 'Z' {
        ((c as u32) + 32) as char
    } else {
        c
    }
}

/// A text with every ASCII capital turned into its small letter.
pub open spec fn ascii_lowercase(s: Seq<char>) -> Seq<char> {
    Seq::new(s.len(), |i: int| lower_char(s[i]))
}

/// The gender that a name stands for, whatever the case of its letters.
pub open spec fn gender_named(name: Seq<char>) -> Gender {
    if ascii_lowercase(name) == seq!['m', 'a', 'l', 'e'] {
        Gender::Male
    } else if ascii_lowercase(name) == seq!['f', 'e', 'm', 'a', 'l', 'e'] {
        Gender::Female
    } else {
        Gender::Unknown
    }
}

/// The transparent form of an opaque gender.
pub open spec fn transparent(gender: Gender) -> CGender {
    match gender {
        Gender::Male => CGender::Male,
        Gender::Female => CGender::Female,
        Gender::Unknown => CGender::Unknown,
    }
}

fn lower_code(c: char) -> (code: u32)
    ensures
        code == lower_char(c) as u32,
{
    if 'A' <= c && c <= 'Z' {
        c as u32 + 32
    } else {
        c as u32
    }
}

/// Whether `name`, with its ASCII capitals made small, reads `word`.
fn reads_as(name: &str, word: &str) -> (same: bool)
    ensures
        same == (ascii_lowercase(name@) == word@),
{
    let len = name.unicode_len();
    if len != word.unicode_len() {
        return false;
    }
    let mut i: usize = 0;
    while i < len
        invariant
            i <= len,
            len == name@.len(),
            len == word@.len(),
            forall|k: int| 0 <= k < i ==> lower_char(name@[k]) == word@[k],
        decreases len - i,
    {
        if lower_code(name.get_char(i)) != word.get_char(i) as u32 {
            assert(ascii_lowercase(name@)[i as int] != word@[i as int]);
            return false;
        }
        i = i + 1;
    }
    assert(ascii_lowercase(name@) =~= word@);
    true
}

/// Tells the gender that a name stands for, in a box that the caller owns.
/// `male` and `female` are known in any mix of capitals; every other name is `Unknown`.
pub fn cc_get_gender(name: &str) -> (gender: Box<Gender>)
    ensures
        *gender == gender_named(name@),
{
    proof {
        reveal_strlit("male");
        reveal_strlit("female");
        assert("male"@ =~= seq!['m', 'a', 'l', 'e']);
        assert("female"@ =~= seq!['f', 'e', 'm', 'a', 'l', 'e']);
    }
    if reads_as(name, "male") {
        Box::new(Gender::Male)
    } else if reads_as(name, "female") {
        Box::new(Gender::Female)
    } else {
        Box::new(Gender::Unknown)
    }
}

/// Whether a gender behind a handle is `Male`.
pub fn cc_is_male_gender(gender: &Gender) -> (is_male: bool)
    ensures
        is_male == (*gender == Gender::Male),
{
    *gender == Gender::Male
}

/// Whether a gender behind a handle is `Female`.
pub fn cc_is_female_gender(gender: &Gender) -> (is_female: bool)
    ensures
        is_female == (*gender == Gender::Female),
{
    *gender == Gender::Female
}

/// Copies a gender behind a handle into its transparent form.
pub fn cc_gender_transfer(gender: &Gender) -> (tag: CGender)
    ensures
        tag == transparent(*gender),
{
    match gender {
        Gender::Male => CGender::Male,
        Gender::Female => CGender::Female,
        _ => CGender::Unknown,
    }
}

} // verus!
