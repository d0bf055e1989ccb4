use vstd::prelude::*;
use vstd::string::{StrSliceExecFns, StringExecFns};

verus! {

/// A file name that stays inside the directory it is looked up in: not empty,
/// free of path separators, and not starting with a dot (which rules out `.`,
/// `..` and hidden files).
pub open spec fn contained_name(s: Seq<char>) -> bool {
    &&& s.len() > 0
    &&& s[0] != '.'
    &&& forall|i: int| 0 <= i < s.len() ==> #[trigger] s[i] != '/' && s[i] != '\\'
}

/// Whether `file` may be served from an asset directory.
pub fn is_contained_name(file: &str) -> (r: bool)
    ensures
        r == contained_name(file@),
{
    let n = file.unicode_len();
    if n == 0 || file.get_char(0) == '.' {
        return false;
    }
    let mut i: usize = 0;
    while i < n
        invariant
            n == file@.len(),
            i <= n,
            forall|j: int| 0 <= j < i ==> #[trigger] file@[j] != '/' && file@[j] != '\\',
        decreases n - i,
    {
        let c = file.get_char(i);
        if c == '/' || c == '\\' {
            return false;
        }
        i += 1;
    }
    true
}

/// The path of `file` inside directory `dir`, or `None` where the name could
/// leave the directory.
pub fn asset_path(dir: &str, file: &str) -> (r: Option<String>)
    ensures
        r is Some <==> contained_name(file@),
        r matches Some(p) ==> p@ == dir@ + seq!['/'] + file@,
{
    if !is_contained_name(file) {
        return None;
    }
    let mut p = String::from_str(dir);
    p.append("/");
    p.append(file);
    proof {
        reveal_strlit("/");
    }
    Some(p)
}

} // verus!
