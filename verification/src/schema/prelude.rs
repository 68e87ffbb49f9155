//! The fully qualified prelude paths that generated code shortens to their in-scope names.

use vstd::prelude::*;

verus! {

/// How a leading-`::` prelude path is rewritten.
#[derive(Clone, Copy, Debug, PartialEq, Eq, Structural)]
pub enum Shorten {
    /// Collapse the path to its final segment (`::std::option::Option` to `Option`).
    Yes,
    /// Collapse the path to its final segment, and note that `HashMap` is then referenced
    /// unqualified, so that `std::collections::HashMap` is imported.
    YesHashMap,
    /// Leave the path fully qualified.
    No,
}

/// The paths collapsed to their final segment.
pub open spec fn shortened_paths() -> Seq<Seq<Seq<char>>> {
    seq![
        seq!["std"@, "option"@, "Option"@],
        seq!["std"@, "string"@, "String"@],
        seq!["std"@, "vec"@, "Vec"@],
        seq!["std"@, "boxed"@, "Box"@],
        seq!["std"@, "default"@, "Default"@],
        seq!["std"@, "convert"@, "TryFrom"@],
        seq!["std"@, "convert"@, "TryInto"@],
    ]
}

/// How a path with the given segments is rewritten.
pub open spec fn shorten_of(segments: Seq<Seq<char>>) -> Shorten {
    if shortened_paths().contains(segments) {
        Shorten::Yes
    } else if segments == seq!["std"@, "collections"@, "HashMap"@] {
        Shorten::YesHashMap
    } else {
        Shorten::No
    }
}

fn segments_are(segments: &Vec<&str>, a: &str, b: &str, c: &str) -> (r: bool)
    ensures
        r == (segments@.map_values(|s: &str| s@) == seq![a@, b@, c@]),
{
    let ghost view = segments@.map_values(|s: &str| s@);
    if segments.len() != 3 {
        assert(view.len() != 3);
        return false;
    }
    let r = crate::text::str_eq(segments[0], a) && crate::text::str_eq(segments[1], b)
        && crate::text::str_eq(segments[2], c);
    if r {
        assert(view =~= seq![a@, b@, c@]);
    } else {
        assert(view[0] != a@ || view[1] != b@ || view[2] != c@);
    }
    r
}

/// Classifies a leading-`::` path by its segments, such as `["std", "option", "Option"]`.
pub fn classify(segments: &Vec<&str>) -> (r: Shorten)
    ensures
        r == shorten_of(segments@.map_values(|s: &str| s@)),
{
    let ghost view = segments@.map_values(|s: &str| s@);
    proof {
        assert(shortened_paths()[0] == seq!["std"@, "option"@, "Option"@]);
        assert(shortened_paths()[1] == seq!["std"@, "string"@, "String"@]);
        assert(shortened_paths()[2] == seq!["std"@, "vec"@, "Vec"@]);
        assert(shortened_paths()[3] == seq!["std"@, "boxed"@, "Box"@]);
        assert(shortened_paths()[4] == seq!["std"@, "default"@, "Default"@]);
        assert(shortened_paths()[5] == seq!["std"@, "convert"@, "TryFrom"@]);
        assert(shortened_paths()[6] == seq!["std"@, "convert"@, "TryInto"@]);
    }
    if segments_are(segments, "std", "option", "Option") || segments_are(segments, "std", "string", "String")
        || segments_are(segments, "std", "vec", "Vec") || segments_are(segments, "std", "boxed", "Box")
        || segments_are(segments, "std", "default", "Default") || segments_are(
        segments,
        "std",
        "convert",
        "TryFrom",
    ) || segments_are(segments, "std", "convert", "TryInto") {
        Shorten::Yes
    } else if segments_are(segments, "std", "collections", "HashMap") {
        proof {
            assert(!shortened_paths().contains(view)) by {
                if shortened_paths().contains(view) {
                    let i = choose|i: int| 0 <= i < shortened_paths().len() && shortened_paths()[i] == view;
                    assert(shortened_paths()[i] == view);
                }
            }
        }
        Shorten::YesHashMap
    } else {
        proof {
            assert(!shortened_paths().contains(view)) by {
                if shortened_paths().contains(view) {
                    let i = choose|i: int| 0 <= i < shortened_paths().len() && shortened_paths()[i] == view;
                    assert(shortened_paths()[i] == view);
                }
            }
        }
        Shorten::No
    }
}

} // verus!
