//! Paths in the form that Node understands.

use vstd::prelude::*;

verus! {

/// The front of a verbatim Windows path.
pub open spec fn verbatim_prefix() -> Seq<char> {
    seq!['\\', '\\', '?', '\\']
}

/// The length of a text in UTF-16 units: a character beyond the first plane takes two.
pub open spec fn utf16_len(text: Seq<char>) -> nat {
    text.len() + text.filter(|c: char| c > '\u{ffff}').len()
}

/// The longest path, in UTF-16 units, that Windows programs take in the plain form.
pub open spec fn longest_plain_path() -> nat {
    260
}

/// `c` is an ASCII letter.
pub open spec fn is_drive_letter(c: char) -> bool {
    'a' <= c <= 'z' || 'A' <= c <= 'Z'
}

/// `c` stands in no file name on Windows, and separates none.
pub open spec fn is_forbidden(c: char) -> bool {
    c <= '\u{1f}' || seq!['<', '>', ':', '"', '|', '?', '*'].contains(c)
}

/// `path` is `simple` behind the verbatim prefix, where `simple` starts with a drive, goes on
/// without forbidden characters, and was not too long with the prefix.
pub open spec fn is_verbatim_form(path: Seq<char>, simple: Seq<char>) -> bool {
    &&& path == verbatim_prefix() + simple
    &&& simple.len() >= 2
    &&& is_drive_letter(simple[0])
    &&& simple[1] == ':'
    &&& forall|i: int| 2 <= i < simple.len() ==> !is_forbidden(#[trigger] simple[i])
    &&& utf16_len(path) <= longest_plain_path()
}

/// `simple` is `path`, or what follows the verbatim prefix in it, from the drive on.
pub open spec fn is_simplified(path: Seq<char>, simple: Seq<char>) -> bool {
    simple == path || is_verbatim_form(path, simple)
}

/// Calls `dunce::simplified`. Claimed: it leaves the path as it is, or takes the verbatim prefix
/// off a path of at most 260 UTF-16 units that goes on with a drive and file names without
/// forbidden characters. When it does which is left unsaid: it depends on the platform (off
/// Windows the path always stays), and on Windows on further rules for file names. What separates
/// the drive from the first name is left unsaid too: the standard library reads it.
#[verifier::external_body]
fn simplified(path: &str) -> (simple: String)
    ensures
        is_simplified(path@, simple@),
{
    dunce::simplified(std::path::Path::new(path)).to_string_lossy().into_owned()
}

/// The path of the host's script as it is handed to Node, which does not take verbatim Windows
/// paths.
pub fn normalize_for_node(path: String) -> (normalized: String)
    ensures
        is_simplified(path@, normalized@),
        !verbatim_prefix().is_prefix_of(path@) ==> normalized@ == path@,
        utf16_len(path@) > longest_plain_path() ==> normalized@ == path@,
{
    let normalized = simplified(path.as_str());
    proof {
        if normalized@ != path@ {
            assert(path@.take(4) == verbatim_prefix());
        }
    }
    normalized
}

/// A simplified path is the path itself or its tail: nothing but the four characters of the
/// verbatim prefix is ever taken off, and only in front of a drive.
pub proof fn simplifying_takes_off_the_prefix_or_nothing(path: Seq<char>, simple: Seq<char>)
    requires
        is_simplified(path, simple),
        simple != path,
    ensures
        path.len() == simple.len() + 4,
        path.skip(4) == simple,
        path.take(4) == seq!['\\', '\\', '?', '\\'],
        'a' <= path[4] <= 'z' || 'A' <= path[4] <= 'Z',
        path[5] == ':',
        path.len() <= 260,
        forall|i: int| 6 <= i < path.len() ==> #[trigger] path[i] > '\u{1f}' && path[i] != ':',
{
    assert(path.skip(4) == simple);
    assert(path.take(4) == verbatim_prefix());
    assert(path[4] == simple[0]);
    assert(path[5] == simple[1]);
    let forbidden = seq!['<', '>', ':', '"', '|', '?', '*'];
    assert(forbidden[2] == ':');
    assert forall|i: int| 6 <= i < path.len() implies #[trigger] path[i] > '\u{1f}' && path[i]
        != ':' by {
        assert(path[i] == simple[i - 4]);
        assert(!is_forbidden(simple[i - 4]));
    }
}

} // verus!
