//! Where the project's error log goes when the program runs from a checkout.
use vstd::prelude::*;

verus! {

/// A path separator on some platform: `/`, or `\` on Windows.
pub open spec fn is_separator(c: char) -> bool {
    c == '/' || c == '\\'
}

/// A Windows verbatim path (`\\?\`, with either separator), which
/// `PathBuf::push` normalises as it adjoins.
pub open spec fn is_verbatim_like(dir: Seq<char>) -> bool {
    &&& dir.len() >= 4
    &&& is_separator(dir[0])
    &&& is_separator(dir[1])
    &&& dir[2] == '?'
    &&& is_separator(dir[3])
}

/// A single file name: not empty, not `.` or `..`, and with no separator
/// and no `:` (which on Windows could start a drive prefix).
pub open spec fn is_plain_name(name: Seq<char>) -> bool {
    &&& name.len() > 0
    &&& name != "."@
    &&& name != ".."@
    &&& forall|i: int| 0 <= i < name.len() ==> !is_separator(#[trigger] name[i]) && name[i] != ':'
}

/// `path` is `dir` with `name` adjoined: `dir`, then either `name` directly
/// (when `dir` is empty, ends in a separator, or is a bare drive) or one
/// separator and `name`.
pub open spec fn is_joined(dir: Seq<char>, name: Seq<char>, path: Seq<char>) -> bool {
    ||| path == dir + name
    ||| exists|c: char| is_separator(c) && path == dir + seq![c] + name
}

/// `Path::new(dir).join(name)`, as a string. The claim, from the
/// documentation of `Path::join` and `PathBuf::push`: a relative name
/// extends the path, so for a plain file name the result is `dir` with the
/// name adjoined, unless `dir` is a verbatim path, where the whole is
/// normalised; in every case the result ends with the name. Which
/// separator is placed, and what a verbatim path becomes, is left unsaid.
#[verifier::external_body]
fn path_join(dir: &str, name: &str) -> (r: String)
    ensures
        is_plain_name(name@) ==> r@.len() >= name@.len() && r@.subrange(r@.len() - name@.len(), r@.len() as int) == name@,
        is_plain_name(name@) && !is_verbatim_like(dir@) ==> is_joined(dir@, name@, r@),
{
    std::path::Path::new(dir).join(name).to_string_lossy().into_owned()
}

/// The project error log in `dir`, when `dir` holds a `package.json` file
/// and a `src-tauri` directory: `error.log` adjoined to `dir`.
pub fn project_error_log_path_from(dir: &str, has_package_json: bool, has_src_tauri_dir: bool) -> (r: Option<String>)
    ensures
        r is Some <==> has_package_json && has_src_tauri_dir,
        match r {
            Some(p) => {
                &&& p@.len() >= 9
                &&& p@.subrange(p@.len() - 9, p@.len() as int) == "error.log"@
                &&& !is_verbatim_like(dir@) ==> is_joined(dir@, "error.log"@, p@)
            },
            None => true,
        },
{
    if has_package_json && has_src_tauri_dir {
        let name = "error.log";
        proof {
            reveal_strlit("error.log");
            reveal_strlit(".");
            reveal_strlit("..");
            assert(name@.len() != "."@.len() && name@.len() != ".."@.len());
        }
        Some(path_join(dir, name))
    } else {
        None
    }
}

} // verus!
