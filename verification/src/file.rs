//! Who may read a small state file, and the note for a secret file that others can read.
//!
//! The identity key is a secret and is created `0600` on Unix. A key file that other
//! users can read is reported rather than refused: refusing to start over a permission
//! bit would lock the operator out of their own machine, and it is fixed in a second
//! once they are told.

use vstd::prelude::*;

use crate::text::push_char;

verus! {

/// Whether a file holds a secret and must not be readable by other users.
#[derive(Debug, Clone, Copy, PartialEq, Eq, Structural)]
pub enum Visibility {
    Private,
    Normal,
}

/// The Unix mode a file of this visibility is created with: owner-only for a secret,
/// world-readable otherwise. Created with it, never chmod-ed afterwards, so there is no
/// window in which a key is readable.
pub fn creation_mode(visibility: Visibility) -> (r: u32)
    ensures
        r == (match visibility {
            Visibility::Private => 0o600u32,
            Visibility::Normal => 0o644u32,
        }),
{
    match visibility {
        Visibility::Private => 0o600,
        Visibility::Normal => 0o644,
    }
}

/// The octal digits of `n`, most significant first, with no leading zeros.
pub open spec fn octal_text(n: nat) -> Seq<char>
    decreases n,
{
    if n < 8 {
        seq![((48 + n) as u8) as char]
    } else {
        octal_text(n / 8).push(((48 + n % 8) as u8) as char)
    }
}

/// `n` in octal.
fn octal(n: u32) -> (r: String)
    ensures
        r@ == octal_text(n as nat),
    decreases n,
{
    if n < 8 {
        let mut out = String::new();
        push_char(&mut out, (48u8 + n as u8) as char);
        proof {
            assert(out@ =~= octal_text(n as nat));
        }
        out
    } else {
        let mut out = octal(n / 8);
        push_char(&mut out, (48u8 + (n % 8) as u8) as char);
        out
    }
}

/// What the operator is told about a key file at `path` with permission bits `mode`.
pub open spec fn permissive_message(path: Seq<char>, mode: nat) -> Seq<char> {
    path + " is mode "@ + octal_text(mode) + "; it holds a private key and should be 600 (chmod 600 "@ + path
        + ")"@
}

/// The note for a secret file at `path` whose mode is `mode`: `None` unless its group or
/// other bits grant anything, and then the message naming the file and the fix.
pub fn over_permissive_note(path: &str, mode: u32) -> (r: Option<String>)
    ensures
        (mode & 0o777u32) & 0o077u32 == 0 ==> r is None,
        (mode & 0o777u32) & 0o077u32 != 0 ==> (r matches Some(m) && m@ == permissive_message(
            path@,
            (mode & 0o777u32) as nat,
        )),
{
    let bits = mode & 0o777;
    if bits & 0o077 == 0 {
        return None;
    }
    let mut message = String::from_str(path);
    message.append(" is mode ");
    message.append(octal(bits).as_str());
    message.append("; it holds a private key and should be 600 (chmod 600 ");
    message.append(path);
    message.append(")");
    Some(message)
}

} // verus!
