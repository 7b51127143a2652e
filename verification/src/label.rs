//! Normalized task identifiers.
//!
//! A task's human-readable label becomes its dispatch key in two steps:
//! every whitespace character is replaced with an underscore, and the
//! result is case-folded to lowercase. The whitespace step is the
//! library's own, over the full Unicode White_Space set; the folding is
//! the platform's Unicode lowercase mapping, which — being
//! context-sensitive (a Greek capital sigma folds by its position) — is
//! named as a whole rather than stated character by character.

use vstd::prelude::*;

verus! {

/// Whether `c` has the Unicode White_Space property.
pub open spec fn is_space_char(c: char) -> bool {
    let u = c as u32;
    u == 0x09 || u == 0x0A || u == 0x0B || u == 0x0C || u == 0x0D || u == 0x20 || u == 0x85
        || u == 0xA0 || u == 0x1680 || (0x2000 <= u && u <= 0x200A) || u == 0x2028 || u == 0x2029
        || u == 0x202F || u == 0x205F || u == 0x3000
}

/// A label with every whitespace character replaced by an underscore.
pub open spec fn spec_underscore(s: Seq<char>) -> Seq<char> {
    s.map_values(|c: char| if is_space_char(c) { '_' } else { c })
}

/// What `str::to_lowercase` returns for a string: its Unicode lowercase
/// equivalent, a function of the characters alone.
pub uninterp spec fn lower_of(s: Seq<char>) -> Seq<char>;

/// The normalized identifier of a label: whitespace replaced by
/// underscores, then case-folded to lowercase.
pub open spec fn spec_task_name(s: Seq<char>) -> Seq<char> {
    lower_of(spec_underscore(s))
}

/// Relies on String's FromIterator impl for char: collecting yields the
/// string of exactly the given characters, in order.
#[verifier::external_body]
pub(crate) fn chars_to_string(cs: Vec<char>) -> (r: String)
    ensures
        r@ == cs@,
{
    cs.into_iter().collect()
}

/// Relies on str::to_lowercase: the lowercase equivalent of the string
/// per Unicode, depending on the characters alone.
#[verifier::external_body]
fn lowercase(s: &str) -> (r: String)
    ensures
        r@ == lower_of(s@),
        s@.len() == 0 ==> r@.len() == 0,
{
    s.to_lowercase()
}

/// Whether `c` has the Unicode White_Space property.
fn is_space(c: char) -> (r: bool)
    ensures
        r == is_space_char(c),
{
    let u = c as u32;
    u == 0x09 || u == 0x0A || u == 0x0B || u == 0x0C || u == 0x0D || u == 0x20 || u == 0x85
        || u == 0xA0 || u == 0x1680 || (0x2000 <= u && u <= 0x200A) || u == 0x2028 || u == 0x2029
        || u == 0x202F || u == 0x205F || u == 0x3000
}

/// Replace every whitespace character with an underscore.
fn underscore(label: &str) -> (r: String)
    ensures
        r@ == spec_underscore(label@),
{
    let n = label.unicode_len();
    let mut out: Vec<char> = Vec::new();
    let mut i: usize = 0;
    while i < n
        invariant
            n == label@.len(),
            i <= n,
            out@.len() == i,
            forall|j: int|
                0 <= j < i ==> out@[j] == if is_space_char(label@[j]) {
                    '_'
                } else {
                    label@[j]
                },
        decreases n - i,
    {
        let c = label.get_char(i);
        let nc: char = if is_space(c) {
            '_'
        } else {
            c
        };
        out.push(nc);
        i = i + 1;
    }
    let r = chars_to_string(out);
    assert(r@ =~= spec_underscore(label@));
    r
}

/// The normalized identifier under which a task is dispatched.
pub fn task_name(label: String) -> (r: String)
    ensures
        r@ == spec_task_name(label@),
{
    let underscored = underscore(label.as_str());
    lowercase(underscored.as_str())
}

/// The whitespace step is idempotent: an underscore is not whitespace,
/// so replacing a second time changes nothing. (The folding step is
/// idempotent too, but that is a property of the platform's lowercase
/// mapping, of which only its determinism is assumed here.)
pub proof fn lemma_underscore_idempotent(s: Seq<char>)
    ensures
        spec_underscore(spec_underscore(s)) == spec_underscore(s),
{
    assert(spec_underscore(spec_underscore(s)) =~= spec_underscore(s));
}

} // verus!
