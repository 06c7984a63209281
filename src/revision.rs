use vstd::prelude::*;
use vstd::string::{is_ascii_spec_bytes, StringSliceAdditionalSpecFns};

use crate::error::Error;
use crate::text::{trim, trimmed};

verus! {

/// An ASCII hexadecimal digit, of either case.
pub open spec fn is_hex_digit(c: char) -> bool {
    ('0' <= c <= '9') || ('a' <= c <= 'f') || ('A' <= c <= 'F')
}

/// A full commit identifier: forty hexadecimal digits.
pub open spec fn is_commit_hash(s: Seq<char>) -> bool {
    s.len() == 40 && forall|i: int| 0 <= i < s.len() ==> is_hex_digit(#[trigger] s[i])
}

fn is_hex_byte(b: u8) -> (r: bool)
    ensures
        r == ((48 <= b <= 57) || (97 <= b <= 102) || (65 <= b <= 70)),
{
    (48 <= b && b <= 57) || (97 <= b && b <= 102) || (65 <= b && b <= 70)
}

/// Whether `rev` is already a full commit identifier.
pub fn is_full_commit(rev: &str) -> (r: bool)
    ensures
        r == is_commit_hash(rev@),
{
    broadcast use is_ascii_spec_bytes;

    if !rev.is_ascii() {
        proof {
            let k = choose|k: int| 0 <= k < rev@.len() && !('\0' <= #[trigger] rev@[k] <= '\u{7f}');
            assert(!is_hex_digit(rev@[k]));
        }
        return false;
    }
    let bytes = rev.as_bytes();
    assert(bytes@.len() == rev@.len());
    if bytes.len() != 40 {
        return false;
    }
    let mut i: usize = 0;
    while i < bytes.len()
        invariant
            i <= bytes@.len() == rev@.len() == 40,
            bytes@ == rev.spec_bytes(),
            rev.spec_bytes() =~= Seq::new(rev@.len(), |k: int| rev@[k] as u8),
            forall|k: int| 0 <= k < rev@.len() ==> '\0' <= #[trigger] rev@[k] <= '\u{7f}',
            forall|k: int| 0 <= k < i ==> is_hex_digit(#[trigger] rev@[k]),
        decreases bytes@.len() - i,
    {
        let b = bytes[i];
        assert(b == rev@[i as int] as u8);
        if !is_hex_byte(b) {
            assert(!is_hex_digit(rev@[i as int]));
            return false;
        }
        i = i + 1;
    }
    true
}

/// How a revision is to be resolved.
#[derive(Debug, Clone, PartialEq, Eq)]
pub enum RevPlan {
    /// Already a full commit identifier, taken as it is.
    Known(String),
    /// A reference that the version-control system must resolve.
    Resolve(String),
}

/// Decides whether `rev` needs the version-control system: a full commit
/// identifier is taken unchanged, anything else is handed to it.
pub fn plan_rev(rev: String) -> (r: RevPlan)
    ensures
        is_commit_hash(rev@) ==> r == RevPlan::Known(rev),
        !is_commit_hash(rev@) ==> r == RevPlan::Resolve(rev),
{
    if is_full_commit(rev.as_str()) {
        RevPlan::Known(rev)
    } else {
        RevPlan::Resolve(rev)
    }
}

/// The revision printed by the version-control system's resolve operation:
/// its output without surrounding white space, or `Command` with the exit
/// code when the operation failed.
pub fn rev_from_output(success: bool, code: Option<i32>, stdout: &str) -> (r: Result<String, Error>)
    ensures
        success ==> (r matches Ok(s) && s@ == trimmed(stdout@)),
        !success ==> r == Err::<String, Error>(Error::Command(code)),
{
    if !success {
        return Err(Error::Command(code));
    }
    Ok(trim(stdout).to_owned())
}

} // verus!
