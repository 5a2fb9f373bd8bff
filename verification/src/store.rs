//! What the core needs from the persistence collaborator's startup
//! routine: where the store lives, and the freshly generated channel
//! secret.  The store's own CRUD runs outside the library; only the
//! decisions and the one computation are here.

use rand::Rng;
use vstd::prelude::*;

verus! {

/// Number of characters in a freshly generated channel secret.
pub const SECRET_LEN: usize = 80;

/// An ASCII letter or digit.
pub open spec fn is_alphanumeric_char(c: char) -> bool {
    (('0' as u32) <= (c as u32) && (c as u32) <= ('9' as u32)) || (('a' as u32) <= (c as u32) && (
    c as u32) <= ('z' as u32)) || (('A' as u32) <= (c as u32) && (c as u32) <= ('Z' as u32))
}

/// Relies on rand's `Alphanumeric` distribution: each sampled byte is an
/// ASCII letter or digit (`a`-`z`, `A`-`Z`, `0`-`9`), so the collected
/// string has exactly `len` alphanumeric characters.  Nothing more is
/// assumed of the randomness.
#[verifier::external_body]
fn sample_alphanumeric(len: usize) -> (r: String)
    ensures
        r@.len() == len as nat,
        forall|i: int| 0 <= i < r@.len() ==> is_alphanumeric_char(#[trigger] r@[i]),
{
    rand::thread_rng()
        .sample_iter(&rand::distributions::Alphanumeric)
        .take(len)
        .map(char::from)
        .collect()
}

/// A freshly generated channel secret: `SECRET_LEN` alphanumeric
/// characters, drawn anew on every call.
pub fn generate_secret() -> (r: String)
    ensures
        r@.len() == SECRET_LEN as nat,
        forall|i: int| 0 <= i < r@.len() ==> is_alphanumeric_char(#[trigger] r@[i]),
{
    sample_alphanumeric(SECRET_LEN)
}

/// Where the database file lives, given what the embedding program found
/// on disk: the system share directory when it is present and writable,
/// else the local assets directory when present, else the working
/// directory.
pub fn db_path_choice(system_store_usable: bool, assets_present: bool) -> (r: String)
    ensures
        system_store_usable ==> r@ == "/usr/share/ffplayout/ffplayout.db"@,
        !system_store_usable && assets_present ==> r@ == "./assets/ffplayout.db"@,
        !system_store_usable && !assets_present ==> r@ == "./ffplayout.db"@,
{
    if system_store_usable {
        "/usr/share/ffplayout/ffplayout.db".to_owned()
    } else if assets_present {
        "./assets/ffplayout.db".to_owned()
    } else {
        "./ffplayout.db".to_owned()
    }
}

} // verus!
