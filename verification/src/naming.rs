//! Names for new containers.
//!
//! Every deployment of an image creates a container of its own, so the name
//! of a container is the image followed by a hyphen and a short random
//! suffix: repeated deployments of one image do not collide.

use rand::distributions::Alphanumeric;
use rand::Rng;
use vstd::prelude::*;
use vstd::string::StringExecFns;

verus! {

/// Whether `c` is an ASCII letter or digit.
pub open spec fn is_alphanumeric(c: char) -> bool {
    let n = c as u32;
    (0x30 <= n <= 0x39) || (0x41 <= n <= 0x5a) || (0x61 <= n <= 0x7a)
}

/// Whether `suffix` can end a container name: seven ASCII letters or digits.
pub open spec fn is_suffix(suffix: Seq<char>) -> bool {
    &&& suffix.len() == 7
    &&& forall|i: int| 0 <= i < suffix.len() ==> is_alphanumeric(#[trigger] suffix[i])
}

/// The name of a container made from `image` with this suffix.
pub open spec fn name_spec(image: Seq<char>, suffix: Seq<char>) -> Seq<char> {
    image + seq!['-'] + suffix
}

/// `String::push` appends one character.
pub assume_specification[ String::push ](text: &mut String, c: char)
    ensures
        final(text)@ == old(text)@.push(c),
;

/// Draws one character from `rand`'s `Alphanumeric` distribution with the
/// generator of the calling thread. The distribution picks from the
/// upper-case letters, the lower-case letters and the digits of ASCII; which
/// of them comes out is left open.
#[verifier::external_body]
fn sample_alphanumeric() -> (c: char)
    ensures
        is_alphanumeric(c),
{
    char::from(rand::thread_rng().sample(Alphanumeric))
}

/// A fresh random suffix.
pub fn random_suffix() -> (suffix: String)
    ensures
        is_suffix(suffix@),
{
    let mut suffix = String::new();
    let mut drawn: usize = 0;
    while drawn < 7
        invariant
            drawn <= 7,
            suffix@.len() == drawn,
            forall|i: int| 0 <= i < suffix@.len() ==> is_alphanumeric(#[trigger] suffix@[i]),
        decreases 7 - drawn,
    {
        let c = sample_alphanumeric();
        suffix.push(c);
        drawn = drawn + 1;
    }
    suffix
}

/// The name of a container made from `image` with this suffix.
pub fn container_name(image: &str, suffix: &str) -> (name: String)
    ensures
        name@ == name_spec(image@, suffix@),
{
    let mut name = String::from_str(image);
    name.push('-');
    name.append(suffix);
    name
}

} // verus!
