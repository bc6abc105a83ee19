use subtle::ConstantTimeEq;
use vstd::prelude::*;
use vstd::string::StringSliceAdditionalSpecFns;

verus! {

/// Why the guard cannot be built; the process must not serve without one.
#[derive(Debug, Clone, Copy, PartialEq, Eq, Structural)]
pub enum ConfigError {
    MissingSecret,
    EmptySecret,
}

/// "Bearer " in ASCII.
pub open spec fn bearer_prefix() -> Seq<u8> {
    seq![0x42u8, 0x65u8, 0x61u8, 0x72u8, 0x65u8, 0x72u8, 0x20u8]
}

/// The one `Authorization` value accepted for `secret`.
pub open spec fn bearer_credential(secret: Seq<u8>) -> Seq<u8> {
    bearer_prefix() + secret
}

/// "/health" and "/ready" pass without a credential.
pub open spec fn is_probe_path(path: Seq<u8>) -> bool {
    ||| path == seq![0x2fu8, 0x68u8, 0x65u8, 0x61u8, 0x6cu8, 0x74u8, 0x68u8]
    ||| path == seq![0x2fu8, 0x72u8, 0x65u8, 0x61u8, 0x64u8, 0x79u8]
}

/// Relies on `subtle::ConstantTimeEq::ct_eq` for byte slices and its
/// conversion to `bool`: true exactly when lengths and contents agree; only a
/// length mismatch returns early.
#[verifier::external_body]
fn constant_time_eq(a: &[u8], b: &[u8]) -> (r: bool)
    ensures
        r == (a@ == b@),
{
    a.ct_eq(b).into()
}

fn is_probe(path: &[u8]) -> (r: bool)
    ensures
        r == is_probe_path(path@),
{
    let health: [u8; 7] = [0x2fu8, 0x68u8, 0x65u8, 0x61u8, 0x6cu8, 0x74u8, 0x68u8];
    let ready: [u8; 6] = [0x2fu8, 0x72u8, 0x65u8, 0x61u8, 0x64u8, 0x79u8];
    constant_time_eq(path, health.as_slice()) || constant_time_eq(path, ready.as_slice())
}

/// The credential guard, holding the expected `Authorization` value computed
/// once from the configured secret.
#[derive(Clone)]
pub struct AuthLayer {
    expected: Vec<u8>,
}

/// A service behind the guard.
#[derive(Clone)]
pub struct AuthService<S> {
    pub inner: S,
    gate: AuthLayer,
}

impl AuthLayer {
    pub closed spec fn credential(&self) -> Seq<u8> {
        self.expected@
    }

    /// Builds the guard from the configured secret; an absent or empty secret
    /// is refused.
    pub fn new(secret: Option<&str>) -> (r: Result<AuthLayer, ConfigError>)
        ensures
            match secret {
                None => r == Err::<AuthLayer, ConfigError>(ConfigError::MissingSecret),
                Some(s) => if s@.len() == 0 {
                    r == Err::<AuthLayer, ConfigError>(ConfigError::EmptySecret)
                } else {
                    r matches Ok(gate) && gate.credential() == bearer_credential(s.spec_bytes())
                },
            },
    {
        let s = match secret {
            None => return Err(ConfigError::MissingSecret),
            Some(s) => s,
        };
        if s.is_empty() {
            return Err(ConfigError::EmptySecret);
        }
        let bytes = s.as_bytes();
        let mut expected: Vec<u8> = vec![0x42u8, 0x65u8, 0x61u8, 0x72u8, 0x65u8, 0x72u8, 0x20u8];
        let mut i: usize = 0;
        while i < bytes.len()
            invariant
                i <= bytes@.len(),
                expected@ == bearer_prefix() + bytes@.subrange(0, i as int),
            decreases bytes@.len() - i,
        {
            expected.push(bytes[i]);
            i += 1;
            assert(expected@ =~= bearer_prefix() + bytes@.subrange(0, i as int));
        }
        assert(bytes@.subrange(0, bytes@.len() as int) =~= bytes@);
        Ok(AuthLayer { expected })
    }

    /// Puts `inner` behind this guard.
    pub fn layer<S>(&self, inner: S) -> (r: AuthService<S>)
        ensures
            r.wrapped() == inner,
            r.gate().credential() == self.credential(),
    {
        AuthService { inner, gate: self.clone_gate() }
    }

    fn clone_gate(&self) -> (r: AuthLayer)
        ensures
            r.credential() == self.credential(),
    {
        let expected = vstd::slice::slice_to_vec(self.expected.as_slice());
        assert(expected@ =~= self.expected@);
        AuthLayer { expected }
    }

    /// Whether a request for `path` carrying `authorization` may pass: probe
    /// paths always do, any other only with the exact expected credential,
    /// compared in constant time.
    pub fn admits(&self, path: &str, authorization: Option<&str>) -> (r: bool)
        ensures
            r == (is_probe_path(path.spec_bytes()) || (authorization matches Some(h)
                && h.spec_bytes() == self.credential())),
    {
        if is_probe(path.as_bytes()) {
            return true;
        }
        match authorization {
            Some(h) => constant_time_eq(self.expected.as_slice(), h.as_bytes()),
            None => false,
        }
    }
}

impl<S> AuthService<S> {
    pub closed spec fn gate(&self) -> AuthLayer {
        self.gate
    }

    pub closed spec fn wrapped(&self) -> S {
        self.inner
    }

    /// Whether a request may reach `inner`, as `AuthLayer::admits` decides.
    pub fn admits(&self, path: &str, authorization: Option<&str>) -> (r: bool)
        ensures
            r == (is_probe_path(path.spec_bytes()) || (authorization matches Some(h)
                && h.spec_bytes() == self.gate().credential())),
    {
        self.gate.admits(path, authorization)
    }
}

} // verus!
