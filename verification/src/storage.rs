//! The names under which lists are stored, and what a stored document is
//! worth.

use vstd::prelude::*;
use vstd::string::StringExecFns;
use crate::error::TodoError;
use crate::text::{lowercase, lowercase_of};

verus! {

/// The ending of every storage key.
pub open spec fn extension() -> Seq<char> {
    seq!['.', 'j', 's', 'o', 'n']
}

/// `text` with each `from` turned into `to`.
pub open spec fn swapped(text: Seq<char>, from: char, to: char) -> Seq<char> {
    text.map_values(
        |c: char|
            if c == from {
                to
            } else {
                c
            },
    )
}

/// `text` with each `from` turned into `to`, of which `to_text` is the text.
fn swap_char(text: &str, from: char, to: char, to_text: &str) -> (changed: String)
    requires
        to_text@ == seq![to],
    ensures
        changed@ == swapped(text@, from, to),
{
    let n = text.unicode_len();
    let mut changed = String::new();
    let mut i: usize = 0;
    while i < n
        invariant
            n == text@.len(),
            i <= n,
            to_text@ == seq![to],
            changed@ == swapped(text@.take(i as int), from, to),
        decreases n - i,
    {
        let c = text.get_char(i);
        let ghost before = changed@;
        if c == from {
            changed.append(to_text);
        } else {
            changed.append(text.substring_char(i, i + 1));
        }
        proof {
            let piece = if c == from { to } else { c };
            assert(text@.subrange(i as int, i + 1) =~= seq![c]);
            assert(changed@ =~= before.push(piece));
            assert(text@.take(i + 1) =~= text@.take(i as int).push(c));
            assert(swapped(text@.take(i + 1), from, to) =~= swapped(
                text@.take(i as int),
                from,
                to,
            ).push(piece));
        }
        i += 1;
    }
    assert(text@.take(n as int) =~= text@);
    changed
}

/// `name` with each space turned into an underscore.
pub fn underscored(name: &str) -> (changed: String)
    ensures
        changed@ == swapped(name@, ' ', '_'),
{
    proof {
        reveal_strlit("_");
    }
    assert("_"@ =~= seq!['_']);
    swap_char(name, ' ', '_', "_")
}

/// `stem` with each underscore turned into a space.
pub fn spaced(stem: &str) -> (changed: String)
    ensures
        changed@ == swapped(stem@, '_', ' '),
{
    proof {
        reveal_strlit(" ");
    }
    assert(" "@ =~= seq![' ']);
    swap_char(stem, '_', ' ', " ")
}

/// The storage key of a stem: the stem with the extension behind it.
pub fn with_extension(stem: String) -> (key: String)
    ensures
        key@ == stem@ + extension(),
{
    proof {
        reveal_strlit(".json");
    }
    assert(".json"@ =~= extension());
    stem.concat(".json")
}

/// The storage key of the list called `name`: the name with underscores for
/// its spaces, in lower case, with the extension behind it. Names that
/// differ only in case, or by a space against an underscore, share a key.
pub open spec fn key_of(name: Seq<char>) -> Seq<char> {
    lowercase_of(swapped(name, ' ', '_')) + extension()
}

/// The storage key of the list called `name`.
pub fn key_for(name: &str) -> (key: String)
    ensures
        key@ == key_of(name@),
{
    let plain = underscored(name);
    with_extension(lowercase(plain.as_str()))
}

/// Whether `file_name` ends with the extension.
pub open spec fn has_extension(file_name: Seq<char>) -> bool {
    &&& file_name.len() >= extension().len()
    &&& file_name.skip(file_name.len() - extension().len()) == extension()
}

/// The identifier that a file name stands for: what is before the extension,
/// with spaces for its underscores. A name without the extension stands for
/// none.
pub open spec fn identifier_of(file_name: Seq<char>) -> Option<Seq<char>> {
    if has_extension(file_name) {
        Some(swapped(file_name.take(file_name.len() - extension().len()), '_', ' '))
    } else {
        None
    }
}

/// Two names that differ only where one has a space and the other an
/// underscore have the same storage key.
pub proof fn lemma_space_and_underscore_share_a_key(a: Seq<char>, b: Seq<char>)
    requires
        a.len() == b.len(),
        forall|i: int|
            0 <= i < a.len() ==> a[i] == b[i] || (a[i] == ' ' && b[i] == '_') || (a[i] == '_'
                && b[i] == ' '),
    ensures
        key_of(a) == key_of(b),
{
    assert(swapped(a, ' ', '_') =~= swapped(b, ' ', '_'));
}

/// A stem with the extension behind it stands for the stem with spaces for
/// its underscores: the identifier of a key has a space wherever the name
/// had a space or an underscore.
pub proof fn lemma_identifier_of_stem(stem: Seq<char>)
    ensures
        identifier_of(stem + extension()) == Some(swapped(stem, '_', ' ')),
        forall|name: Seq<char>| #[trigger]
            identifier_of(key_of(name)) == Some(
                swapped(lowercase_of(swapped(name, ' ', '_')), '_', ' '),
            ),
{
    let file_name = stem + extension();
    assert(file_name.skip(file_name.len() - extension().len()) =~= extension());
    assert(file_name.take(file_name.len() - extension().len()) =~= stem);
    assert forall|name: Seq<char>| #[trigger]
        identifier_of(key_of(name)) == Some(
            swapped(lowercase_of(swapped(name, ' ', '_')), '_', ' '),
        ) by {
        let inner = lowercase_of(swapped(name, ' ', '_'));
        let key = inner + extension();
        assert(key.skip(key.len() - extension().len()) =~= extension());
        assert(key.take(key.len() - extension().len()) =~= inner);
    }
}

/// The identifier that a file name stands for, where it stands for one.
pub fn identifier_for(file_name: &str) -> (identifier: Option<String>)
    ensures
        identifier is Some <==> identifier_of(file_name@) is Some,
        identifier is Some ==> identifier_of(file_name@) == Some(identifier->Some_0@),
{
    let n = file_name.unicode_len();
    if n < 5 {
        return None;
    }
    let start = n - 5;
    let ghost tail = file_name@.skip(start as int);
    if file_name.get_char(start) != '.' || file_name.get_char(start + 1) != 'j'
        || file_name.get_char(start + 2) != 's' || file_name.get_char(start + 3) != 'o'
        || file_name.get_char(start + 4) != 'n' {
        assert(tail[0] == file_name@[start as int]);
        assert(tail[1] == file_name@[start + 1]);
        assert(tail[2] == file_name@[start + 2]);
        assert(tail[3] == file_name@[start + 3]);
        assert(tail[4] == file_name@[start + 4]);
        return None;
    }
    assert(tail =~= extension());
    let stem = file_name.substring_char(0, start);
    assert(stem@ =~= file_name@.take(start as int));
    Some(spaced(stem))
}

/// The identifiers that the file names stand for, in the order of the names.
pub open spec fn identifiers_of(file_names: Seq<Seq<char>>) -> Seq<Seq<char>>
    decreases file_names.len(),
{
    if file_names.len() == 0 {
        Seq::empty()
    } else {
        let rest = identifiers_of(file_names.drop_last());
        match identifier_of(file_names.last()) {
            Some(identifier) => rest.push(identifier),
            None => rest,
        }
    }
}

/// The texts of a vector of strings.
pub open spec fn texts(strings: Seq<String>) -> Seq<Seq<char>> {
    strings.map_values(|s: String| s@)
}

/// The identifiers of the lists that are stored under the given file names:
/// one for each name with the extension, in the order of the names.
pub fn list_identifiers(file_names: &Vec<String>) -> (identifiers: Vec<String>)
    ensures
        texts(identifiers@) == identifiers_of(texts(file_names@)),
{
    let mut identifiers: Vec<String> = Vec::new();
    let mut i: usize = 0;
    while i < file_names.len()
        invariant
            i <= file_names.len(),
            texts(identifiers@) == identifiers_of(texts(file_names@).take(i as int)),
        decreases file_names.len() - i,
    {
        let ghost before = texts(identifiers@);
        let ghost seen = texts(file_names@).take(i + 1);
        assert(seen.drop_last() =~= texts(file_names@).take(i as int));
        assert(seen.last() == file_names@[i as int]@);
        match identifier_for(file_names[i].as_str()) {
            Some(identifier) => {
                identifiers.push(identifier);
                assert(texts(identifiers@) =~= before.push(identifier@));
            },
            None => {},
        }
        i += 1;
    }
    assert(texts(file_names@).take(i as int) =~= texts(file_names@));
    identifiers
}

/// The failure to report when storage could not give or remove a document:
/// `NotFound` where there is no document under the key, `StorageFailure` for
/// any other fault.
pub fn storage_error(document_missing: bool) -> (error: TodoError)
    ensures
        error == if document_missing {
            TodoError::NotFound
        } else {
            TodoError::StorageFailure
        },
{
    if document_missing {
        TodoError::NotFound
    } else {
        TodoError::StorageFailure
    }
}

} // verus!
