use vstd::prelude::*;

use crate::encode::{hex_of, replace_spaces, to_lower_hex, underscore_spaces};

verus! {

/// The MD5 digest of the UTF-8 encoding of a text.
pub uninterp spec fn md5_of(text: Seq<char>) -> Seq<u8>;

/// The SHA-1 digest of the UTF-8 encoding of a text.
pub uninterp spec fn sha1_of(text: Seq<char>) -> Seq<u8>;

/// Relies on md5::compute, which returns the sixteen bytes of the digest.
#[verifier::external_body]
fn md5_digest(text: &str) -> (r: Vec<u8>)
    ensures
        r@ == md5_of(text@),
        r@.len() == 16,
{
    md5::compute(text).0.to_vec()
}

/// Relies on sha1::Sha1 through digest::Digest::digest, whose output is twenty bytes.
#[verifier::external_body]
fn sha1_digest(text: &str) -> (r: Vec<u8>)
    ensures
        r@ == sha1_of(text@),
        r@.len() == 20,
{
    <sha1::Sha1 as sha1::Digest>::digest(text).to_vec()
}

/// Relies on whoami::devicename: the display name of this machine, which may
/// be anything.
#[verifier::external_body]
fn local_device_name() -> (r: String) {
    whoami::devicename()
}

/// Lowercase hexadecimal MD5 digest of a text.
pub fn md5_hex(text: &str) -> (r: String)
    ensures
        r@ == hex_of(md5_of(text@)),
        r@.len() == 32,
{
    let d = md5_digest(text);
    to_lower_hex(d.as_slice())
}

/// Lowercase hexadecimal SHA-1 digest of a text.
pub fn sha1_hex(text: &str) -> (r: String)
    ensures
        r@ == hex_of(sha1_of(text@)),
        r@.len() == 40,
{
    let d = sha1_digest(text);
    to_lower_hex(d.as_slice())
}

/// How this client names itself to the server: a display name without spaces
/// and the MD5 digest of that name as the device identifier.
#[derive(Debug, Clone, PartialEq, Eq)]
pub struct DeviceIdentity {
    pub name: String,
    pub id: String,
}

/// The identifier that belongs to a normalised device name.
pub open spec fn device_id_of(name: Seq<char>) -> Seq<char> {
    hex_of(md5_of(name))
}

impl DeviceIdentity {
    /// The name holds no space and the identifier is the digest of the name.
    pub open spec fn wf(&self) -> bool {
        &&& underscore_spaces(self.name@) == self.name@
        &&& self.id@ == device_id_of(self.name@)
    }

    /// The identity of a device with the given display name: spaces in the
    /// name become underscores before it is hashed.
    pub fn from_name(display_name: &str) -> (r: DeviceIdentity)
        ensures
            r.name@ == underscore_spaces(display_name@),
            r.id@ == device_id_of(r.name@),
            r.wf(),
    {
        let name = replace_spaces(display_name);
        let id = md5_hex(name.as_str());
        assert(underscore_spaces(name@) =~= name@);
        DeviceIdentity { name, id }
    }

    /// The identity of the machine this runs on.
    pub fn local() -> (r: DeviceIdentity)
        ensures
            r.wf(),
            exists|display_name: Seq<char>| r.name@ == underscore_spaces(display_name),
    {
        let display_name = local_device_name();
        DeviceIdentity::from_name(display_name.as_str())
    }
}

} // verus!
