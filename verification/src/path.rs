use vstd::prelude::*;
use vstd::string::*;

verus! {

/// The path separator.
pub open spec fn separator() -> char {
    '/'
}

/// A path is absolute when it starts at the root.
pub open spec fn is_absolute(p: Seq<char>) -> bool {
    p.len() > 0 && p[0] == separator()
}

/// Whether a separator has to go between `base` and a relative component
/// appended to it: `base` is non-empty and does not already end in one.
pub open spec fn needs_separator(base: Seq<char>) -> bool {
    base.len() > 0 && base.last() != separator()
}

/// Appending `comp` to `base`, as `PathBuf::push` does on Unix: an absolute
/// `comp` replaces `base`; a relative one is added after a separator, which
/// is left out where `base` is empty or already ends in one.
pub open spec fn join_spec(base: Seq<char>, comp: Seq<char>) -> Seq<char> {
    if is_absolute(comp) {
        comp
    } else if needs_separator(base) {
        base + seq![separator()] + comp
    } else {
        base + comp
    }
}

/// Returns `base` with `comp` appended (see `join_spec`).
pub fn join(base: &str, comp: &str) -> (res: String)
    ensures
        res@ == join_spec(base@, comp@),
{
    let comp_len = comp.unicode_len();
    if comp_len > 0 && comp.get_char(0) == '/' {
        return String::from_str(comp);
    }
    let base_len = base.unicode_len();
    let mut res = String::from_str(base);
    if base_len > 0 && base.get_char(base_len - 1) != '/' {
        res.append("/");
        proof {
            reveal_strlit("/");
        }
    }
    res.append(comp);
    res
}

} // verus!
