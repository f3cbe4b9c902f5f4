//! Protection variants and the artifact names that they select.

use crate::text::chars_of;
use vstd::prelude::*;

verus! {

/// The marker inside a variant tag that asks for a randomized layout.
pub open spec fn randomized_marker() -> Seq<char> {
    seq!['_', 'a', 's', 'l', 'r']
}

/// The extension of a compiled module's file name, with its dot.
pub open spec fn artifact_extension() -> Seq<char> {
    seq!['.', 's', 'o']
}

/// `needle` occurs in `hay` at position `at`.
pub open spec fn occurs_at(hay: Seq<char>, needle: Seq<char>, at: int) -> bool {
    &&& 0 <= at
    &&& at + needle.len() <= hay.len()
    &&& hay.subrange(at, at + needle.len()) == needle
}

/// The tag carries the randomized-layout marker somewhere.
pub open spec fn has_marker(tag: Seq<char>) -> bool {
    exists|at: int| occurs_at(tag, randomized_marker(), at)
}

/// The name under which the artifact of an endpoint and a variant is known.
pub open spec fn artifact_name_of(endpoint: Seq<char>, tag: Seq<char>) -> Seq<char> {
    endpoint + seq!['_'] + tag
}

/// The file name of the artifact of that name.
pub open spec fn artifact_file_of(name: Seq<char>) -> Seq<char> {
    name + artifact_extension()
}

/// Whether the five characters of `chars` from `at` on spell the marker.
fn marker_at(chars: &Vec<char>, at: usize) -> (found: bool)
    requires
        at + 5 <= chars.len(),
    ensures
        found == occurs_at(chars@, randomized_marker(), at as int),
{
    let found = chars[at] == '_' && chars[at + 1] == 'a' && chars[at + 2] == 's' && chars[at + 3]
        == 'l' && chars[at + 4] == 'r';
    proof {
        let window = chars@.subrange(at as int, at + 5);
        if found {
            assert(window =~= randomized_marker());
        } else {
            assert(window[0] == chars@[at as int]);
            assert(window[1] == chars@[at + 1]);
            assert(window[2] == chars@[at + 2]);
            assert(window[3] == chars@[at + 3]);
            assert(window[4] == chars@[at + 4]);
        }
    }
    found
}

/// Whether a variant tag asks for a randomized layout.
pub fn contains_marker(tag: &str) -> (found: bool)
    ensures
        found == has_marker(tag@),
{
    let chars = chars_of(tag);
    let n = chars.len();
    if n < 5 {
        return false;
    }
    let mut at: usize = 0;
    while at <= n - 5
        invariant
            n == chars.len(),
            chars@ == tag@,
            5 <= n,
            at <= n - 4,
            forall|k: int| 0 <= k < at ==> !occurs_at(tag@, randomized_marker(), k),
        decreases n - at,
    {
        if marker_at(&chars, at) {
            return true;
        }
        at += 1;
    }
    false
}

/// A protection variant: the tag as it was given, and whether it asks for a
/// randomized layout.
pub struct ProtectionVariant {
    tag: String,
    randomized: bool,
}

impl View for ProtectionVariant {
    type V = Seq<char>;

    /// The tag's characters.
    closed spec fn view(&self) -> Seq<char> {
        self.tag@
    }
}

impl ProtectionVariant {
    #[verifier::type_invariant]
    spec fn flag_matches_tag(self) -> bool {
        self.randomized == has_marker(self.tag@)
    }

    /// Reads a variant tag.
    pub fn parse(tag: &str) -> (variant: Self)
        ensures
            variant@ == tag@,
    {
        let randomized = contains_marker(tag);
        ProtectionVariant { tag: tag.to_owned(), randomized }
    }

    /// The tag as it was given.
    pub fn tag(&self) -> (tag: &String)
        ensures
            tag@ == self@,
    {
        &self.tag
    }

    /// Whether the variant asks for a randomized layout.
    pub fn is_randomized(&self) -> (randomized: bool)
        ensures
            randomized == has_marker(self@),
    {
        proof {
            use_type_invariant(self);
        }
        self.randomized
    }
}

/// Composes the name of the artifact of an endpoint and a variant tag.
pub fn artifact_name(endpoint: &str, tag: &str) -> (name: String)
    ensures
        name@ == artifact_name_of(endpoint@, tag@),
{
    proof {
        reveal_strlit("_");
    }
    let mut name = endpoint.to_owned();
    name.append("_");
    name.append(tag);
    name
}

/// Composes the file name of the artifact of that name.
pub fn artifact_file_name(name: &str) -> (file: String)
    ensures
        file@ == artifact_file_of(name@),
{
    proof {
        reveal_strlit(".so");
    }
    let mut file = name.to_owned();
    file.append(".so");
    file
}

} // verus!
