//! Mapping a request path to the candidate files under the root folder.
//!
//! The convention is fixed: `/` targets `<root>index.html`; any other path
//! has its first slash removed and targets `<root>/<stripped>.html`, with
//! `<root>/<stripped>/index.html` as the fallback. The root folder is glued
//! on as given, so a root without a trailing separator makes the primary
//! target of `/` a sibling `<root>index.html` rather than a file inside the
//! root; the fallback then still finds `<root>//index.html`.

use vstd::prelude::*;
use vstd::string::StrSliceExecFns;
use vstd::string::StringExecFns;
use crate::text::after_char;
use crate::text::after_str;
use crate::text::before_char;
use crate::text::before_str;
use crate::text::contains_char;

verus! {

/// `p` with its first `/` removed, wherever it stands; `p` itself when it
/// has none.
pub open spec fn strip_first_slash(p: Seq<char>) -> Seq<char> {
    if contains_char(p, '/') {
        before_char(p, '/') + after_char(p, '/')
    } else {
        p
    }
}

/// The file first tried for a request path.
pub open spec fn primary_target_spec(root: Seq<char>, path: Seq<char>) -> Seq<char> {
    if path == "/"@ {
        root + "index.html"@
    } else {
        root + "/"@ + strip_first_slash(path) + ".html"@
    }
}

/// The file tried when the primary target cannot be read.
pub open spec fn fallback_target_spec(root: Seq<char>, path: Seq<char>) -> Seq<char> {
    root + "/"@ + strip_first_slash(path) + "/index.html"@
}

/// `p` with its first `/` removed, if it has one.
pub fn strip_slash(p: &str) -> (r: String)
    ensures
        r@ == strip_first_slash(p@),
{
    let i = crate::text::find_char(p, '/');
    let n = p.unicode_len();
    proof {
        crate::text::lemma_first_index(p@, '/');
    }
    if i == n {
        String::from_str(p)
    } else {
        let mut r = String::from_str(before_str(p, '/'));
        r.append(after_str(p, '/'));
        r
    }
}

/// Whether the path is exactly `/`.
fn is_root_path(p: &str) -> (b: bool)
    ensures
        b == (p@ == "/"@),
{
    proof {
        reveal_strlit("/");
    }
    let n = p.unicode_len();
    if n == 1 {
        let c = p.get_char(0);
        if c == '/' {
            assert(p@ =~= "/"@);
            true
        } else {
            false
        }
    } else {
        false
    }
}

/// The primary target for a request path.
pub fn primary_target(root: &str, path: &str) -> (r: String)
    ensures
        r@ == primary_target_spec(root@, path@),
{
    if is_root_path(path) {
        let mut r = String::from_str(root);
        r.append("index.html");
        r
    } else {
        let mut r = String::from_str(root);
        r.append("/");
        let stripped = strip_slash(path);
        r.append(stripped.as_str());
        r.append(".html");
        assert(r@ =~= primary_target_spec(root@, path@));
        r
    }
}

/// The fallback target for a request path.
pub fn fallback_target(root: &str, path: &str) -> (r: String)
    ensures
        r@ == fallback_target_spec(root@, path@),
{
    let mut r = String::from_str(root);
    r.append("/");
    let stripped = strip_slash(path);
    r.append(stripped.as_str());
    r.append("/index.html");
    assert(r@ =~= fallback_target_spec(root@, path@));
    r
}

} // verus!
