//! Where an uploaded file is stored: a fresh identifier, a hyphen and the
//! sanitized name the client gave, directly under the upload root.

use vstd::prelude::*;
use vstd::string::*;

verus! {

/// What `sanitize_filename::sanitize_with_options` makes of `name` under the
/// three options of that crate: whether the rules for Windows names apply,
/// whether a long name is truncated, and what stands in for what is removed.
pub uninterp spec fn sanitized_name(
    name: Seq<char>,
    windows: bool,
    truncate: bool,
    replacement: Seq<char>,
) -> Seq<char>;

/// The name a client's file name is cleaned to: sanitized with truncation,
/// what is removed replaced by nothing, and the rules for Windows names
/// applied exactly where `windows` is set.
pub open spec fn clean_name(filename: Seq<char>, windows: bool) -> Seq<char> {
    sanitized_name(filename, windows, true, Seq::empty())
}

/// A character that separates the components of a path.
pub open spec fn is_separator(c: char) -> bool {
    c == '/' || c == '\\'
}

/// No character of `s` separates path components.
pub open spec fn has_no_separator(s: Seq<char>) -> bool {
    forall|i: int| 0 <= i < s.len() ==> !is_separator(#[trigger] s[i])
}

/// A digit of lower-case hexadecimal notation.
pub open spec fn is_lower_hex(c: char) -> bool {
    ('0' <= c <= '9') || ('a' <= c <= 'f')
}

/// The places of the hyphens in the text of an identifier.
pub open spec fn is_hyphen_place(i: int) -> bool {
    i == 8 || i == 13 || i == 18 || i == 23
}

/// The hyphenated lower-case text of a random (version 4) UUID: 36
/// characters, hexadecimal digits in groups of 8, 4, 4, 4 and 12, the third
/// group starting with the version and the fourth with the variant.
pub open spec fn is_uuid_text(s: Seq<char>) -> bool {
    &&& s.len() == 36
    &&& forall|i: int|
        0 <= i < 36 ==> if is_hyphen_place(i) {
            #[trigger] s[i] == '-'
        } else {
            is_lower_hex(s[i])
        }
    &&& s[14] == '4'
    &&& (s[19] == '8' || s[19] == '9' || s[19] == 'a' || s[19] == 'b')
}

/// The name a file is stored under.
pub open spec fn stored_name(id: Seq<char>, clean: Seq<char>) -> Seq<char> {
    id + seq!['-'] + clean
}

/// The path of the stored file on disk.
pub open spec fn absolute_path_of(absolute_root: Seq<char>, name: Seq<char>) -> Seq<char> {
    absolute_root + seq!['/'] + name
}

/// The path of the stored file as later readers refer to it.
pub open spec fn relative_path_of(upload_root: Seq<char>, name: Seq<char>) -> Seq<char> {
    seq!['.', '.', '/'] + upload_root + seq!['/'] + name
}

/// The two paths of a stored file, as texts.
pub struct StoredFileView {
    pub absolute_path: Seq<char>,
    pub relative_path: Seq<char>,
}

/// The two paths of the file that an image part was written to.
#[derive(Debug, Clone, PartialEq, Eq)]
pub struct StoredFile {
    pub absolute_path: String,
    pub relative_path: String,
}

impl View for StoredFile {
    type V = StoredFileView;

    open spec fn view(&self) -> StoredFileView {
        StoredFileView {
            absolute_path: self.absolute_path@,
            relative_path: self.relative_path@,
        }
    }
}

/// The stored file for an identifier and a sanitized name.
pub open spec fn stored_file_of(
    upload_root: Seq<char>,
    absolute_root: Seq<char>,
    id: Seq<char>,
    clean: Seq<char>,
) -> StoredFileView {
    StoredFileView {
        absolute_path: absolute_path_of(absolute_root, stored_name(id, clean)),
        relative_path: relative_path_of(upload_root, stored_name(id, clean)),
    }
}

/// Calls `sanitize_filename::sanitize_with_options` with the three options
/// as given. The result is named, not described. What is claimed of it beyond
/// the name: with an empty replacement it holds neither `/` nor `\`, both of
/// which the crate removes in its first pass, and nothing is put back.
#[verifier::external_body]
pub(crate) fn sanitize_with(name: &str, windows: bool, truncate: bool, replacement: &str) -> (clean:
    String)
    ensures
        clean@ == sanitized_name(name@, windows, truncate, replacement@),
        replacement@.len() == 0 ==> has_no_separator(clean@),
{
    sanitize_filename::sanitize_with_options(
        name,
        sanitize_filename::Options { windows, truncate, replacement },
    )
}

/// Cleans the file name a client sent, so that it can be part of the name of
/// a stored file.
pub fn clean_file_name(filename: &str, windows: bool) -> (clean: String)
    ensures
        clean@ == clean_name(filename@, windows),
        has_no_separator(clean@),
{
    proof {
        reveal_strlit("");
        assert(""@ =~= Seq::<char>::empty());
    }
    sanitize_with(filename, windows, true, "")
}

/// Calls `uuid::Uuid::new_v4` and formats the identifier as the crate's
/// `Display` does: hyphenated, in lower case. Each call gives another
/// identifier; the contract states the shape that all of them have. The
/// crate panics where the operating system hands out no random bytes.
#[verifier::external_body]
pub(crate) fn fresh_id() -> (id: String)
    ensures
        is_uuid_text(id@),
{
    uuid::Uuid::new_v4().to_string()
}

/// Puts the two paths together for a given identifier and sanitized name.
pub fn plan_stored_file(upload_root: &str, absolute_root: &str, id: &str, clean: &str) -> (file:
    StoredFile)
    ensures
        file@ == stored_file_of(upload_root@, absolute_root@, id@, clean@),
{
    proof {
        reveal_strlit("-");
        reveal_strlit("/");
        reveal_strlit("../");
        assert("-"@ =~= seq!['-']);
        assert("/"@ =~= seq!['/']);
        assert("../"@ =~= seq!['.', '.', '/']);
    }
    let mut absolute_path = String::from_str(absolute_root);
    absolute_path.append("/");
    absolute_path.append(id);
    absolute_path.append("-");
    absolute_path.append(clean);
    let mut relative_path = String::from_str("../");
    relative_path.append(upload_root);
    relative_path.append("/");
    relative_path.append(id);
    relative_path.append("-");
    relative_path.append(clean);
    proof {
        assert(absolute_path@ =~= absolute_path_of(absolute_root@, stored_name(id@, clean@)));
        assert(relative_path@ =~= relative_path_of(upload_root@, stored_name(id@, clean@)));
    }
    StoredFile { absolute_path, relative_path }
}

/// The path names a file directly in the directory `absolute_root`: what
/// follows the root and one `/` is a name without a path separator.
pub open spec fn lies_directly_in(path: Seq<char>, absolute_root: Seq<char>) -> bool {
    exists|name: Seq<char>|
        has_no_separator(name) && path == #[trigger] absolute_path_of(absolute_root, name)
}

/// The path is that of a file stored under `id` and a name without a path
/// separator.
pub open spec fn is_stored_under(path: Seq<char>, absolute_root: Seq<char>, id: Seq<char>) -> bool {
    exists|clean: Seq<char>|
        has_no_separator(clean) && path == absolute_path_of(
            absolute_root,
            #[trigger] stored_name(id, clean),
        )
}

/// What `name_upload` may return for `filename`: the stored file of some
/// identifier of the right shape and of the sanitized name.
pub open spec fn names_upload(
    file: StoredFileView,
    upload_root: Seq<char>,
    absolute_root: Seq<char>,
    filename: Seq<char>,
    windows: bool,
) -> bool {
    exists|id: Seq<char>|
        is_uuid_text(id) && #[trigger] stored_file_of(
            upload_root,
            absolute_root,
            id,
            clean_name(filename, windows),
        ) == file
}

/// Picks where the upload named `filename` by the client is stored: under a
/// fresh identifier, a hyphen and the sanitized name.
pub fn name_upload(upload_root: &str, absolute_root: &str, filename: &str, windows: bool) -> (file:
    StoredFile)
    ensures
        names_upload(file@, upload_root@, absolute_root@, filename@, windows),
        lies_directly_in(file@.absolute_path, absolute_root@),
{
    let id = fresh_id();
    let clean = clean_file_name(filename, windows);
    proof {
        lemma_stored_name_has_no_separator(id@, clean@);
    }
    plan_stored_file(upload_root, absolute_root, id.as_str(), clean.as_str())
}

/// Two uploads stored under different identifiers have different names,
/// and under one upload root different paths, whatever the clients called
/// them.
pub proof fn lemma_distinct_ids_distinct_names(
    upload_root: Seq<char>,
    absolute_root: Seq<char>,
    id1: Seq<char>,
    id2: Seq<char>,
    clean1: Seq<char>,
    clean2: Seq<char>,
)
    requires
        is_uuid_text(id1),
        is_uuid_text(id2),
        id1 != id2,
    ensures
        stored_name(id1, clean1) != stored_name(id2, clean2),
        stored_file_of(upload_root, absolute_root, id1, clean1).absolute_path != stored_file_of(
            upload_root,
            absolute_root,
            id2,
            clean2,
        ).absolute_path,
        stored_file_of(upload_root, absolute_root, id1, clean1).relative_path != stored_file_of(
            upload_root,
            absolute_root,
            id2,
            clean2,
        ).relative_path,
{
    let n1 = stored_name(id1, clean1);
    let n2 = stored_name(id2, clean2);
    if n1 == n2 {
        assert(n1.take(36) =~= id1);
        assert(n2.take(36) =~= id2);
    }
    let a1 = absolute_path_of(absolute_root, n1);
    let a2 = absolute_path_of(absolute_root, n2);
    if a1 == a2 {
        assert(a1.skip(absolute_root.len() as int + 1) =~= n1);
        assert(a2.skip(absolute_root.len() as int + 1) =~= n2);
    }
    let r1 = relative_path_of(upload_root, n1);
    let r2 = relative_path_of(upload_root, n2);
    if r1 == r2 {
        assert(r1.skip(upload_root.len() as int + 4) =~= n1);
        assert(r2.skip(upload_root.len() as int + 4) =~= n2);
    }
}

/// The name of a stored file holds no path separator where the sanitized
/// name holds none: the file lies directly in the upload root, whatever name
/// the client sent.
pub proof fn lemma_stored_name_has_no_separator(id: Seq<char>, clean: Seq<char>)
    requires
        is_uuid_text(id),
        has_no_separator(clean),
    ensures
        has_no_separator(stored_name(id, clean)),
{
    let name = stored_name(id, clean);
    assert forall|i: int| 0 <= i < name.len() implies !is_separator(#[trigger] name[i]) by {
        if i < 36 {
            assert(name[i] == id[i]);
        } else if i == 36 {
        } else {
            assert(name[i] == clean[i - 37]);
        }
    }
}

} // verus!
