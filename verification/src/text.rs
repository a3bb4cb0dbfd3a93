//! Texts as sequences of characters.
use vstd::prelude::*;
use vstd::utf8::{decode_utf8, valid_utf8};

verus! {

/// The characters of each string of a list.
pub open spec fn texts(strings: Seq<String>) -> Seq<Seq<char>> {
    Seq::new(strings.len(), |i: int| strings[i]@)
}

/// The characters of an optional string.
pub open spec fn opt_text(string: Option<String>) -> Option<Seq<char>> {
    match string {
        Some(s) => Some(s@),
        None => None,
    }
}

/// The words with one space between each two neighbours.
pub open spec fn spaced(words: Seq<Seq<char>>) -> Seq<char>
    decreases words.len(),
{
    if words.len() == 0 {
        Seq::empty()
    } else if words.len() == 1 {
        words[0]
    } else {
        spaced(words.drop_last()) + seq![' '] + words.last()
    }
}

/// What `String::from_utf8_lossy` makes of bytes: their text as UTF-8, with a replacement character
/// for what is no UTF-8.
pub uninterp spec fn utf8_lossy(bytes: Seq<u8>) -> Seq<char>;

/// Reads bytes as UTF-8, by `String::from_utf8_lossy`.
///
/// Taken on trust: the text is `utf8_lossy` of the bytes, and bytes that are valid UTF-8 are read
/// as what they encode.
#[verifier::external_body]
pub(crate) fn from_utf8_lossy(bytes: &[u8]) -> (text: String)
    ensures
        text@ == utf8_lossy(bytes@),
        valid_utf8(bytes@) ==> text@ == decode_utf8(bytes@),
{
    String::from_utf8_lossy(bytes).into_owned()
}

/// Joins the words with single spaces.
pub fn join_with_spaces(words: &[String]) -> (joined: String)
    ensures
        joined@ == spaced(texts(words@)),
{
    let mut joined: String = String::new();
    for i in 0..words.len()
        invariant
            joined@ == spaced(texts(words@).take(i as int)),
    {
        if i > 0 {
            joined.append(" ");
        }
        joined.append(words[i].as_str());
        proof {
            reveal_strlit(" ");
            assert(texts(words@).take(i + 1).drop_last() =~= texts(words@).take(i as int));
        }
    }
    assert(texts(words@).take(words.len() as int) =~= texts(words@));
    joined
}

} // verus!
