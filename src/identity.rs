//! The device identifier: an MD5 digest of host name and user name.

use vstd::prelude::*;
use vstd::string::StringExecFns;

verus! {

/// The lowercase hexadecimal MD5 digest of the UTF-8 bytes of `s`.
pub uninterp spec fn md5_hex(s: Seq<char>) -> Seq<char>;

/// The text that is hashed: host name and user name, joined by a bar.
pub open spec fn identity_text(host: Seq<char>, user: Seq<char>) -> Seq<char> {
    host + seq!['|'] + user
}

/// The identifier of the machine `host` for the account `user`.
pub open spec fn device_id_of(host: Seq<char>, user: Seq<char>) -> Seq<char> {
    md5_hex(identity_text(host, user))
}

/// Relies on `md5::compute` and the digest's `LowerHex`: two lowercase hex
/// digits per byte of the digest.
#[verifier::external_body]
fn md5_lower_hex(s: &str) -> (r: String)
    ensures
        r@ == md5_hex(s@),
        r@.len() == 32,
{
    format!("{:x}", md5::compute(s))
}

/// Relies on `whoami::hostname`: the machine's host name, as the system
/// gives it at the time of the call.
#[verifier::external_body]
pub(crate) fn host_name() -> (r: String) {
    #[allow(deprecated)]
    whoami::hostname()
}

/// Relies on `whoami::username`: the account name of the current user.
#[verifier::external_body]
fn user_name() -> (r: String) {
    whoami::username()
}

/// The identifier for `host` and `user`; the same pair always gives the same
/// identifier, of 32 hexadecimal digits.
pub fn device_id_for(host: &str, user: &str) -> (r: String)
    ensures
        r@ == device_id_of(host@, user@),
        r@.len() == 32,
{
    let mut raw = host.to_owned();
    raw.append("|");
    raw.append(user);
    proof {
        reveal_strlit("|");
        assert(raw@ =~= identity_text(host@, user@));
    }
    md5_lower_hex(raw.as_str())
}

/// The identifier of this machine for the current user.
pub fn compute_device_id() -> (r: String)
    ensures
        exists|host: Seq<char>, user: Seq<char>| r@ == device_id_of(host, user),
        r@.len() == 32,
{
    let host = host_name();
    let user = user_name();
    device_id_for(host.as_str(), user.as_str())
}

/// The name that this machine shows the remote site: its host name.
pub fn device_name() -> (r: String) {
    host_name()
}

} // verus!
