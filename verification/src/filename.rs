//! The name under which a downloaded asset is staged.

use crate::asset::Asset;
use crate::text::{chars_of, find, find_in, lemma_find_leftmost, occurs_at};
use vstd::prelude::*;

verus! {

/// The file name that the extended parameter of a content disposition
/// header carries, if it carries one.
///
/// The parameter starts at the first `filename*=` and ends before the next
/// `;` or with the header.  Its value holds a character set, two single
/// quotes and the name; the name is what follows the first two single
/// quotes.  A parameter without the quotes, or with nothing after them,
/// carries no name.
pub open spec fn header_file_name(header: Seq<char>) -> Option<Seq<char>> {
    match find(header, "filename*="@, 0) {
        None => None,
        Some(at) => {
            let value = at + "filename*="@.len();
            let end = match find(header, ";"@, value) {
                Some(stop) => stop,
                None => header.len() as int,
            };
            match find(header, "''"@, value) {
                None => None,
                Some(quotes) => {
                    let start = quotes + "''"@.len();
                    if start < end {
                        Some(header.subrange(start, end))
                    } else {
                        None
                    }
                },
            }
        },
    }
}

/// The name under which an asset is staged: the recorded file name where
/// there is one; else the name that the content disposition header of the
/// download carries; else the asset's identifier.
pub open spec fn staged_name(
    file_name: Seq<char>,
    id: Seq<char>,
    header: Option<Seq<char>>,
) -> Seq<char> {
    if file_name.len() > 0 {
        file_name
    } else {
        match header {
            Some(text) => match header_file_name(text) {
                Some(name) => name,
                None => id,
            },
            None => id,
        }
    }
}

/// Whether `name` names a file of the directory it is joined to, and
/// nothing else: it is not empty, holds no `/` and no `\`, and is neither
/// `.` nor `..`.
pub open spec fn is_plain_name(name: Seq<char>) -> bool {
    &&& name.len() > 0
    &&& name != seq!['.']
    &&& name != seq!['.', '.']
    &&& forall|i: int| 0 <= i < name.len() ==> name[i] != '/' && name[i] != '\\'
}

/// Says whether `name` names a file of the directory it is joined to, and
/// nothing else.
pub fn plain_name(name: &str) -> (plain: bool)
    ensures
        plain == is_plain_name(name@),
{
    let text = chars_of(name);
    let length = text.len();
    if length == 0 {
        return false;
    }
    if text[0] == '.' && (length == 1 || (length == 2 && text[1] == '.')) {
        assert(text@ =~= seq!['.'] || text@ =~= seq!['.', '.']);
        return false;
    }
    assert(text@ != seq!['.'] && text@ != seq!['.', '.']) by {
        if text@ == seq!['.'] || text@ == seq!['.', '.'] {
            assert(seq!['.'][0] == '.');
            assert(seq!['.', '.'][0] == '.' && seq!['.', '.'][1] == '.');
        }
    }
    let mut i: usize = 0;
    while i < length
        invariant
            length == text.len(),
            text@ == name@,
            i <= length,
            length > 0,
            text@ != seq!['.'],
            text@ != seq!['.', '.'],
            forall|j: int| 0 <= j < i ==> text@[j] != '/' && text@[j] != '\\',
        decreases length - i,
    {
        if text[i] == '/' || text[i] == '\\' {
            return false;
        }
        i += 1;
    }
    true
}

/// Reads the file name out of the extended parameter of a content
/// disposition header.
pub fn parse_content_disposition(header: &str) -> (name: Option<String>)
    ensures
        match header_file_name(header@) {
            Some(expected) => name matches Some(found) && found@ == expected,
            None => name is None,
        },
{
    let text = chars_of(header);
    let marker = chars_of("filename*=");
    let stop = chars_of(";");
    let quotes = chars_of("''");
    let length = text.len();
    match find_in(&text, &marker, 0) {
        None => None,
        Some(at) => {
            proof {
                lemma_find_leftmost(text@, marker@, 0);
                assert(occurs_at(text@, marker@, at as int));
            }
            let value = at + marker.len();
            let end = match find_in(&text, &stop, value) {
                Some(stop_at) => stop_at,
                None => length,
            };
            proof {
                lemma_find_leftmost(text@, stop@, value as int);
                lemma_find_leftmost(text@, quotes@, value as int);
            }
            match find_in(&text, &quotes, value) {
                None => None,
                Some(quotes_at) => {
                    assert(occurs_at(text@, quotes@, quotes_at as int));
                    let start = quotes_at + quotes.len();
                    if start < end {
                        Some(header.substring_char(start, end).to_owned())
                    } else {
                        None
                    }
                },
            }
        },
    }
}

/// Chooses the name under which `asset` is staged, given the content
/// disposition header of its download, if the answer had one.
pub fn resolve_file_name(asset: &Asset, content_disposition: Option<&str>) -> (name: String)
    ensures
        name@ == staged_name(
            asset.file_name@,
            asset.id@,
            match content_disposition {
                Some(header) => Some(header@),
                None => None,
            },
        ),
{
    if !asset.file_name.as_str().is_empty() {
        return asset.file_name.clone();
    }
    match content_disposition {
        Some(header) => match parse_content_disposition(header) {
            Some(name) => name,
            None => asset.id.clone(),
        },
        None => asset.id.clone(),
    }
}

} // verus!
