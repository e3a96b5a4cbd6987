//! Small verified helpers for strings and paths.

use vstd::prelude::*;
use vstd::string::StringExecFns;

verus! {

/// A path below `base`, as the installer writes it: `base`, a separator,
/// then the child name.
pub open spec fn path_join(base: Seq<char>, child: Seq<char>) -> Seq<char> {
    base + "/"@ + child
}

/// The members of `parts` joined with single spaces, in order.
pub open spec fn joined_spaced_spec(parts: Seq<Seq<char>>) -> Seq<char>
    decreases parts.len(),
{
    if parts.len() == 0 {
        Seq::<char>::empty()
    } else if parts.len() == 1 {
        parts[0]
    } else {
        joined_spaced_spec(parts.drop_last()) + " "@ + parts.last()
    }
}

/// Equality of two string slices by their character sequences.
pub fn str_eq(a: &str, b: &str) -> (r: bool)
    ensures
        r == (a@ == b@),
{
    a.to_owned() == b.to_owned()
}

/// Appends `child` to `base` under a separator.
pub fn join_path(base: &str, child: &str) -> (r: String)
    ensures
        r@ == path_join(base@, child@),
{
    let mut s = base.to_owned();
    s.append("/");
    s.append(child);
    s
}

/// Concatenation of two string slices.
pub fn concat2(a: &str, b: &str) -> (r: String)
    ensures
        r@ == a@ + b@,
{
    let mut s = a.to_owned();
    s.append(b);
    s
}

/// Concatenation of three string slices.
pub fn concat3(a: &str, b: &str, c: &str) -> (r: String)
    ensures
        r@ == a@ + b@ + c@,
{
    let mut s = a.to_owned();
    s.append(b);
    s.append(c);
    s
}

/// Concatenation of four string slices.
pub fn concat4(a: &str, b: &str, c: &str, d: &str) -> (r: String)
    ensures
        r@ == a@ + b@ + c@ + d@,
{
    let mut s = a.to_owned();
    s.append(b);
    s.append(c);
    s.append(d);
    s
}

/// Concatenation of five string slices.
pub fn concat5(a: &str, b: &str, c: &str, d: &str, e: &str) -> (r: String)
    ensures
        r@ == a@ + b@ + c@ + d@ + e@,
{
    let mut s = a.to_owned();
    s.append(b);
    s.append(c);
    s.append(d);
    s.append(e);
    s
}

} // verus!
