use vstd::prelude::*;

verus! {

/// The standard base64 encoding, with padding, of the UTF-8 bytes of a text.
pub uninterp spec fn base64_of(s: Seq<char>) -> Seq<char>;

/// Relies on `base64::engine::general_purpose::STANDARD.encode`: the standard
/// alphabet with padding, a function of the input bytes alone.
#[verifier::external_body]
fn encode_base64(s: &str) -> (r: String)
    ensures
        r@ == base64_of(s@),
{
    base64::Engine::encode(&base64::engine::general_purpose::STANDARD, s)
}

/// Where the inventory service is and which credentials it takes.
pub struct ClientConfig {
    pub base_url: String,
    pub user: String,
    pub password: String,
}

impl ClientConfig {
    pub fn new(base_url: String, user: String, password: String) -> (r: ClientConfig)
        ensures
            r.base_url@ == base_url@,
            r.user@ == user@,
            r.password@ == password@,
    {
        ClientConfig { base_url, user, password }
    }

    /// The value of the `Authorization` header for basic authentication.
    pub fn basic_auth_header(&self) -> (r: String)
        ensures
            r@ == "Basic "@ + base64_of(self.user@ + ":"@ + self.password@),
    {
        let pair = self.user.clone().concat(":").concat(self.password.as_str());
        let encoded = encode_base64(pair.as_str());
        String::from_str("Basic ").concat(encoded.as_str())
    }

    /// The address of the volume collection.
    pub fn volumes_url(&self) -> (r: String)
        ensures
            r@ == self.base_url@ + "/volume/"@,
    {
        self.base_url.clone().concat("/volume/")
    }

    /// The address of one volume.
    pub fn volume_url(&self, name: &str) -> (r: String)
        ensures
            r@ == self.base_url@ + "/volume/"@ + name@,
    {
        self.volumes_url().concat(name)
    }

    /// The address of the scan collection.
    pub fn scans_url(&self) -> (r: String)
        ensures
            r@ == self.base_url@ + "/scan/"@,
    {
        self.base_url.clone().concat("/scan/")
    }

    /// The address of one scan.
    pub fn scan_url(&self, id: &str) -> (r: String)
        ensures
            r@ == self.base_url@ + "/scan/"@ + id@,
    {
        self.scans_url().concat(id)
    }
}

/// The one-line summary of a shown record: two fields separated by a space.
pub fn summary_line(first: &str, second: &str) -> (r: String)
    ensures
        r@ == first@ + " "@ + second@,
{
    String::from_str(first).concat(" ").concat(second)
}

} // verus!
