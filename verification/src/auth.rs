use vstd::prelude::*;
use crate::error::ClientError;

verus! {

/// The fixed metadata key under which the credential travels on every call.
pub open spec fn auth_key() -> Seq<char> {
    "authorization"@
}

/// The metadata value carrying credential `cred`: the bearer prefix
/// followed by the raw credential.
pub open spec fn bearer_value(cred: Seq<char>) -> Seq<char> {
    "Bearer "@ + cred
}

/// Whether `c` may appear in a metadata value. The library's documented
/// encoding scheme admits horizontal tab and printable ASCII — a subset of
/// what HTTP header values admit, so an accepted credential never fails at
/// the transport.
pub open spec fn encodable_char(c: char) -> bool {
    c == '\t' || (' ' <= c && c <= '~')
}

/// Whether the credential can be encoded as a metadata value.
pub open spec fn credential_encodable(cred: Seq<char>) -> bool {
    forall|i: int| 0 <= i < cred.len() ==> encodable_char(#[trigger] cred[i])
}

/// Checks encodability of a credential, character by character.
pub fn check_encodable(cred: &str) -> (r: bool)
    ensures
        r == credential_encodable(cred@),
{
    if !cred.is_ascii() {
        proof {
            let i = choose|i: int|
                0 <= i < cred@.len() && !('\0' <= #[trigger] cred@[i] <= '\u{7f}');
            assert(!encodable_char(cred@[i]));
        }
        return false;
    }
    proof {
        broadcast use vstd::string::is_ascii_spec_bytes;

    }
    let bytes: &[u8] = cred.as_bytes();
    let n: usize = bytes.len();
    let mut i: usize = 0;
    while i < n
        invariant
            n == bytes@.len() == cred@.len(),
            0 <= i <= n,
            bytes@ =~= Seq::new(cred@.len(), |j: int| cred@[j] as u8),
            vstd::string::is_ascii(cred),
            forall|j: int| 0 <= j < i ==> encodable_char(#[trigger] cred@[j]),
        decreases n - i,
    {
        let b: u8 = bytes[i];
        if !(b == 9 || (32 <= b && b <= 126)) {
            proof {
                assert(cred@[i as int] as u8 == b);
                assert(cred@[i as int] <= '\u{7f}');
                assert(!encodable_char(cred@[i as int]));
            }
            return false;
        }
        proof {
            assert(cred@[i as int] as u8 == b);
            assert(cred@[i as int] <= '\u{7f}');
            assert(encodable_char(cred@[i as int]));
        }
        i = i + 1;
    }
    true
}

/// Builds the metadata value for `cred`: the bearer prefix followed by the
/// credential.
pub fn bearer_string(cred: &str) -> (r: String)
    ensures
        r@ == bearer_value(cred@),
{
    let mut s = String::from_str("Bearer ");
    s.append(cred);
    s
}

/// A call's out-of-band metadata: ordered key/value entries.
pub struct Metadata {
    pub entries: Vec<(String, String)>,
}

impl View for Metadata {
    type V = Seq<(Seq<char>, Seq<char>)>;

    open spec fn view(&self) -> Seq<(Seq<char>, Seq<char>)> {
        self.entries.deep_view()
    }
}

impl Metadata {
    /// Empty metadata, as a call starts out.
    pub fn new() -> (m: Metadata)
        ensures
            m@ == Seq::<(Seq<char>, Seq<char>)>::empty(),
    {
        let m = Metadata { entries: Vec::new() };
        proof {
            assert(m@ =~= Seq::<(Seq<char>, Seq<char>)>::empty());
        }
        m
    }

    /// Appends one entry.
    pub fn push_entry(&mut self, key: String, value: String)
        ensures
            final(self)@ == old(self)@.push((key@, value@)),
    {
        let ghost before = self.entries.deep_view();
        let ghost kv = (key@, value@);
        self.entries.push((key, value));
        proof {
            assert(self.entries.deep_view() =~= before.push(kv));
        }
    }
}

/// Metadata `m` carries credential `cred` when some entry holds the bearer
/// value under the fixed key.
pub open spec fn carries_credential(m: Seq<(Seq<char>, Seq<char>)>, cred: Seq<char>) -> bool {
    exists|i: int| 0 <= i < m.len() && m[i] == (auth_key(), bearer_value(cred))
}

/// The authenticating call wrapper: holds the immutable credential it
/// attaches to every outgoing call's metadata.
pub struct AuthInterceptor {
    pub credential: String,
}

impl AuthInterceptor {
    /// Wraps a credential accepted by the resolver.
    pub fn new(credential: String) -> (a: AuthInterceptor)
        ensures
            a.credential@ == credential@,
    {
        AuthInterceptor { credential }
    }

    /// Applies the interceptor to one outgoing call: appends the bearer
    /// credential under the fixed key, alters nothing else, and fails with
    /// `AuthEncodingError` exactly when the credential cannot be encoded
    /// as a metadata value.
    pub fn intercept(&self, meta: Metadata) -> (r: Result<Metadata, ClientError>)
        ensures
            credential_encodable(self.credential@) ==> {
                &&& r matches Ok(m)
                &&& m@ == meta@.push((auth_key(), bearer_value(self.credential@)))
            },
            !credential_encodable(self.credential@) ==> r == Err::<Metadata, ClientError>(
                ClientError::AuthEncodingError,
            ),
    {
        if check_encodable(self.credential.as_str()) {
            let mut m = meta;
            let value = bearer_string(self.credential.as_str());
            m.push_entry(String::from_str("authorization"), value);
            Ok(m)
        } else {
            Err(ClientError::AuthEncodingError)
        }
    }
}

/// Every call issued through the wrapper carries the credential: whatever
/// metadata an outgoing call starts with, the intercepted metadata holds
/// the bearer value under the fixed key.
pub proof fn lemma_intercept_carries_credential(m: Seq<(Seq<char>, Seq<char>)>, cred: Seq<char>)
    ensures
        carries_credential(m.push((auth_key(), bearer_value(cred))), cred),
{
    let m2 = m.push((auth_key(), bearer_value(cred)));
    assert(0 <= m.len() < m2.len() && m2[m.len() as int] == (auth_key(), bearer_value(cred)));
}

} // verus!
