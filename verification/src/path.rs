//! Paths of files, as text with `/` between the components.

use vstd::prelude::*;
use vstd::string::StringExecFns;

use crate::text::{chars_of, ends_with};

verus! {

/// `name` inside the directory `directory`. A `name` that begins with `/` stands
/// for itself.
pub open spec fn joined(directory: Seq<char>, name: Seq<char>) -> Seq<char> {
    if name.len() > 0 && name[0] == '/' {
        name
    } else if directory.len() == 0 || directory.last() == '/' {
        directory + name
    } else {
        directory + seq!['/'] + name
    }
}

/// `name` inside the directory `directory`. A `name` that begins with `/` stands
/// for itself.
pub fn join(directory: &str, name: &str) -> (path: String)
    ensures
        path@ == joined(directory@, name@),
{
    let parent = chars_of(directory);
    let child = chars_of(name);
    if child.len() > 0 && child[0] == '/' {
        return name.to_string();
    }
    let mut path: String = directory.to_string();
    if parent.len() > 0 && parent[parent.len() - 1] != '/' {
        path.append("/");
        proof {
            reveal_strlit("/");
        }
        assert("/"@ =~= seq!['/']);
    }
    path.append(name);
    path
}

/// What `Path::with_extension` makes of `path` and `extension`.
pub uninterp spec fn path_with_extension(path: Seq<char>, extension: Seq<char>) -> Seq<char>;

/// `path` is the file `stem` with the extension `extension` in the directory
/// `directory`, which is empty or ends with `/`. A stem that is a single dot is left
/// out: without its extension it would stand for a directory.
pub open spec fn is_file_in(
    path: Seq<char>,
    directory: Seq<char>,
    stem: Seq<char>,
    extension: Seq<char>,
) -> bool {
    &&& path == directory + stem + seq!['.'] + extension
    &&& directory.len() == 0 || directory.last() == '/'
    &&& stem.len() > 0 && !stem.contains('/') && stem != seq!['.']
    &&& extension.len() > 0 && !extension.contains('/') && !extension.contains('.')
}

/// Calls `std::path::Path::with_extension`: the path with another extension. The
/// contract names the result, for paths with `/` between the components, and says of
/// a path that ends in a file name with an extension that only this extension
/// changes.
#[verifier::external_body]
pub(crate) fn with_extension(path: &str, extension: &str) -> (changed: String)
    requires
        extension@.len() > 0,
        !extension@.contains('/'),
    ensures
        changed@ == path_with_extension(path@, extension@),
        forall|directory: Seq<char>, stem: Seq<char>, old_extension: Seq<char>|
            #[trigger] is_file_in(path@, directory, stem, old_extension) ==> changed@ == directory
                + stem + seq!['.'] + extension@,
{
    std::path::Path::new(path).with_extension(extension).to_string_lossy().into_owned()
}

/// The file of the spool named `name` is a manifest: it has the extension
/// `json`.
pub open spec fn is_manifest_name(name: Seq<char>) -> bool {
    name.len() > 5 && ".json"@.is_suffix_of(name)
}

/// Whether the file of the spool named `name` is a manifest.
pub fn manifest_name(name: &str) -> (manifest: bool)
    ensures
        manifest == is_manifest_name(name@),
{
    chars_of(name).len() > 5 && ends_with(name, ".json")
}

/// A file in a directory is named with one `/` between, unless the directory ends with
/// one or is empty. A name that begins with `/` stands for itself.
pub proof fn law_one_separator_joins(directory: Seq<char>, name: Seq<char>)
    ensures
        name.len() > 0 && name[0] == '/' ==> joined(directory, name) == name,
        !(name.len() > 0 && name[0] == '/') ==> {
            &&& directory.len() == 0 ==> joined(directory, name) == name
            &&& joined(directory.push('/'), name) == directory + seq!['/'] + name
            &&& directory.len() > 0 && directory.last() != '/' ==> joined(directory, name)
                == joined(directory.push('/'), name)
        },
{
    assert(directory.push('/') =~= directory + seq!['/']);
    if directory.len() == 0 {
        assert(directory + name =~= name);
    }
}

/// A manifest has the ending `.json` behind a name.
pub proof fn law_manifests_end_in_json(stem: Seq<char>, name: Seq<char>)
    ensures
        stem.len() > 0 ==> is_manifest_name(stem + seq!['.', 'j', 's', 'o', 'n']),
        is_manifest_name(name) ==> name.len() > 5 && name.skip(name.len() - 5) == seq![
            '.',
            'j',
            's',
            'o',
            'n',
        ],
{
    reveal_strlit(".json");
    let long = stem + seq!['.', 'j', 's', 'o', 'n'];
    assert(".json"@ =~= seq!['.', 'j', 's', 'o', 'n']);
    assert(long.skip(long.len() - 5) =~= seq!['.', 'j', 's', 'o', 'n']);
}

} // verus!
