//! Names and paths of trace and profile artifacts.
//!
//! A trace artifact is named after the second it was requested in and its
//! tag, followed by the extension of the provider that captures it. The
//! profile made from it keeps the name and trades the extension. Paths are
//! text with `/` between a directory and a name.

use crate::text::{decimal, decimal_string, to_chars};
use vstd::prelude::*;
use vstd::string::*;

verus! {

/// The path of the entry `name` in the directory `dir`.
pub open spec fn joined(dir: Seq<char>, name: Seq<char>) -> Seq<char> {
    if dir.len() == 0 || dir.last() == '/' {
        dir + name
    } else {
        dir + seq!['/'] + name
    }
}

/// The name of an artifact requested `secs` seconds after the epoch under `tag`,
/// before any extension.
pub open spec fn stamped_name(secs: nat, tag: Seq<char>) -> Seq<char> {
    decimal(secs) + seq!['_'] + tag
}

/// `name` followed by a dot and `ext`.
pub open spec fn with_extension(name: Seq<char>, ext: Seq<char>) -> Seq<char> {
    name + seq!['.'] + ext
}

/// The position of the last dot in `name`, or -1 where it has none.
pub open spec fn last_dot(name: Seq<char>) -> int
    decreases name.len(),
{
    if name.len() == 0 {
        -1
    } else if name.last() == '.' {
        name.len() - 1
    } else {
        last_dot(name.drop_last())
    }
}

/// The extension of a file name: what follows its last dot, unless the name
/// has no dot or only a leading one.
pub open spec fn extension_of(name: Seq<char>) -> Option<Seq<char>> {
    let dot = last_dot(name);
    if dot <= 0 {
        None
    } else {
        Some(name.skip(dot + 1))
    }
}

/// The file name without its extension and the dot before it.
pub open spec fn stem_of(name: Seq<char>) -> Seq<char> {
    let dot = last_dot(name);
    if dot <= 0 {
        name
    } else {
        name.take(dot)
    }
}

/// Whether the extension of `name` is `ext`.
pub open spec fn named_with(name: Seq<char>, ext: Seq<char>) -> bool {
    extension_of(name) == Some(ext)
}

/// `name` with its extension, if it has one, traded for `ext`.
pub open spec fn retitled(name: Seq<char>, ext: Seq<char>) -> Seq<char> {
    with_extension(stem_of(name), ext)
}

/// Whether `s` holds no dot.
pub open spec fn dotless(s: Seq<char>) -> bool {
    forall|i: int| 0 <= i < s.len() ==> #[trigger] s[i] != '.'
}

/// `last_dot` finds a dot, and none stands after it.
pub proof fn lemma_last_dot(name: Seq<char>)
    ensures
        -1 <= last_dot(name) < name.len(),
        last_dot(name) >= 0 ==> name[last_dot(name)] == '.',
        forall|i: int| last_dot(name) < i < name.len() ==> #[trigger] name[i] != '.',
    decreases name.len(),
{
    if name.len() > 0 && name.last() != '.' {
        let front = name.drop_last();
        lemma_last_dot(front);
        assert forall|i: int| last_dot(name) < i < name.len() implies #[trigger] name[i]
            != '.' by {
            if i < front.len() {
                assert(name[i] == front[i]);
            }
        }
    }
}

/// The last dot is where a dot stands with no dot after it.
pub proof fn lemma_last_dot_is(name: Seq<char>, at: int)
    requires
        0 <= at < name.len(),
        name[at] == '.',
        forall|i: int| at < i < name.len() ==> #[trigger] name[i] != '.',
    ensures
        last_dot(name) == at,
{
    lemma_last_dot(name);
}

/// An extension without a dot, added to a name that is not empty, is the
/// extension of the result, and the name is its stem.
pub proof fn lemma_extension_added(name: Seq<char>, ext: Seq<char>)
    requires
        name.len() > 0,
        dotless(ext),
    ensures
        extension_of(with_extension(name, ext)) == Some(ext),
        stem_of(with_extension(name, ext)) == name,
        named_with(with_extension(name, ext), ext),
{
    let full = with_extension(name, ext);
    let at = name.len() as int;
    assert(full[at] == '.');
    assert forall|i: int| at < i < full.len() implies #[trigger] full[i] != '.' by {
        assert(full[i] == ext[i - at - 1]);
    }
    lemma_last_dot_is(full, at);
    assert(full.skip(at + 1) =~= ext);
    assert(full.take(at) =~= name);
}

/// Trading the extension of a name built by `with_extension` keeps the name
/// in front of it.
pub proof fn lemma_retitled_keeps_name(name: Seq<char>, from: Seq<char>, to: Seq<char>)
    requires
        name.len() > 0,
        dotless(from),
    ensures
        retitled(with_extension(name, from), to) == with_extension(name, to),
{
    lemma_extension_added(name, from);
}

/// A stamped name holds its tag, whole, right after the stamp and the underscore.
pub proof fn lemma_stamped_name_embeds_tag(secs: nat, tag: Seq<char>)
    ensures
        stamped_name(secs, tag).len() == decimal(secs).len() + 1 + tag.len(),
        stamped_name(secs, tag).skip(decimal(secs).len() as int + 1) == tag,
        stamped_name(secs, tag).len() > 0,
{
    assert(stamped_name(secs, tag).skip(decimal(secs).len() as int + 1) =~= tag);
}

/// One entry of a directory, as a listing reports it.
#[derive(Clone, Debug, PartialEq, Eq)]
pub struct DirEntry {
    /// The entry's file name, without the directory.
    pub name: String,
    /// Whether the entry is a regular file.
    pub is_file: bool,
}

/// What a `DirEntry` holds.
pub struct DirEntryView {
    pub name: Seq<char>,
    pub is_file: bool,
}

impl View for DirEntry {
    type V = DirEntryView;

    open spec fn view(&self) -> DirEntryView {
        DirEntryView { name: self.name@, is_file: self.is_file }
    }
}

/// The path of `name` in `dir`.
pub fn join_path(dir: &str, name: &str) -> (path: String)
    ensures
        path@ == joined(dir@, name@),
{
    let d = to_chars(dir);
    let mut path = String::from_str(dir);
    if d.len() > 0 && d[d.len() - 1] != '/' {
        proof {
            reveal_strlit("/");
        }
        path.append("/");
        assert("/"@ == seq!['/']);
    }
    path.append(name);
    path
}

/// The artifact name for a request made `secs` seconds after the epoch under `tag`.
pub fn file_name_at(secs: u64, tag: &str) -> (name: String)
    ensures
        name@ == stamped_name(secs as nat, tag@),
{
    let mut name = decimal_string(secs);
    proof {
        reveal_strlit("_");
    }
    name.append("_");
    assert("_"@ == seq!['_']);
    name.append(tag);
    name
}

/// `name` followed by a dot and `ext`.
pub fn add_extension(name: &str, ext: &str) -> (full: String)
    ensures
        full@ == with_extension(name@, ext@),
{
    let mut full = String::from_str(name);
    proof {
        reveal_strlit(".");
    }
    full.append(".");
    assert("."@ == seq!['.']);
    full.append(ext);
    full
}

/// Where the last dot of `chars` stands, if it has one.
fn find_last_dot(chars: &Vec<char>) -> (at: Option<usize>)
    ensures
        match at {
            Some(i) => i < chars.len() && i as int == last_dot(chars@),
            None => last_dot(chars@) == -1,
        },
{
    let mut i: usize = chars.len();
    proof {
        lemma_last_dot(chars@);
    }
    while i > 0
        invariant
            i <= chars.len(),
            forall|j: int| i <= j < chars.len() ==> #[trigger] chars@[j] != '.',
        decreases i,
    {
        i = i - 1;
        if chars[i] == '.' {
            proof {
                lemma_last_dot_is(chars@, i as int);
            }
            return Some(i);
        }
    }
    proof {
        lemma_last_dot(chars@);
    }
    None
}

/// Whether the extension of the file name `name` is `ext`.
pub fn has_extension(name: &str, ext: &str) -> (has: bool)
    ensures
        has == named_with(name@, ext@),
{
    let chars = to_chars(name);
    let wanted = to_chars(ext);
    let dot = match find_last_dot(&chars) {
        Some(i) => i,
        None => {
            return false;
        },
    };
    if dot == 0 {
        return false;
    }
    let ghost found = name@.skip(dot + 1);
    if chars.len() - dot - 1 != wanted.len() {
        assert(found.len() != ext@.len());
        return false;
    }
    let mut k: usize = 0;
    while k < wanted.len()
        invariant
            chars@ == name@,
            wanted@ == ext@,
            0 < dot < chars.len(),
            dot as int == last_dot(name@),
            chars.len() - dot - 1 == wanted.len(),
            found == name@.skip(dot + 1),
            k <= wanted.len(),
            forall|j: int| 0 <= j < k ==> found[j] == ext@[j],
        decreases wanted.len() - k,
    {
        if chars[dot + 1 + k] != wanted[k] {
            assert(found[k as int] != ext@[k as int]);
            return false;
        }
        k = k + 1;
    }
    assert(found =~= ext@);
    true
}

/// `name` with its extension, if it has one, traded for `ext`.
pub fn replace_extension(name: &str, ext: &str) -> (renamed: String)
    ensures
        renamed@ == retitled(name@, ext@),
{
    let chars = to_chars(name);
    let stem: &str = match find_last_dot(&chars) {
        Some(i) => if i == 0 {
            name
        } else {
            name.substring_char(0, i)
        },
        None => name,
    };
    assert(stem@ == stem_of(name@));
    add_extension(stem, ext)
}

} // verus!
