//! The access credential for the music service and the cache that shares it
//! between the background refresh task and foreground request handling.

use vstd::prelude::*;

verus! {

/// A bearer credential for the music service: the token text and the
/// lifetime, in seconds, that the service advertised for it.
///
/// A credential is replaced as a whole on refresh, never edited in place.
pub struct Credential {
    pub token: String,
    pub expires_in_seconds: u64,
}

impl Credential {
    pub fn new(token: String, expires_in_seconds: u64) -> (c: Credential)
        ensures
            c.token == token,
            c.expires_in_seconds == expires_in_seconds,
    {
        Credential { token, expires_in_seconds }
    }

    /// The placeholder the cache starts from before the first refresh: an
    /// empty token with no lifetime.
    pub fn initial() -> (c: Credential)
        ensures
            c.token@ == Seq::<char>::empty(),
            c.expires_in_seconds == 0,
    {
        Credential { token: String::new(), expires_in_seconds: 0 }
    }
}

/// Holds the credential that every call to the music service reads.
///
/// A ghost sequence records every value the cache has held, the initial one
/// first: `read` can therefore promise that it never returns a value other
/// than one previously passed to `write` or the initial one.
pub struct CredentialCache {
    value: Credential,
    written: Ghost<Seq<Credential>>,
}

impl CredentialCache {
    /// The credential the cache currently holds.
    pub closed spec fn current(&self) -> Credential {
        self.value
    }

    /// Every value the cache has held: the initial one, then each argument
    /// of `write` in order.
    pub closed spec fn writes(&self) -> Seq<Credential> {
        self.written@
    }

    pub open spec fn wf(&self) -> bool {
        self.writes().len() >= 1 && self.writes().last() == self.current()
    }

    pub fn new(initial: Credential) -> (cache: CredentialCache)
        ensures
            cache.wf(),
            cache.current() == initial,
            cache.writes() =~= seq![initial],
    {
        let ghost w: Seq<Credential> = seq![initial];
        CredentialCache { written: Ghost(w), value: initial }
    }

    /// Returns a copy of the stored credential. The result is always a value
    /// the cache has held: one previously written, or the initial one.
    pub fn read(&self) -> (c: Credential)
        requires
            self.wf(),
        ensures
            c == self.current(),
            self.writes().contains(c),
    {
        let c = Credential {
            token: self.value.token.clone(),
            expires_in_seconds: self.value.expires_in_seconds,
        };
        proof {
            assert(self.writes().contains(c)) by {
                assert(self.writes()[self.writes().len() - 1] == c);
            }
        }
        c
    }

    /// Atomically replaces the stored credential.
    pub fn write(&mut self, c: Credential)
        requires
            old(self).wf(),
        ensures
            final(self).wf(),
            final(self).current() == c,
            final(self).writes() == old(self).writes().push(c),
    {
        self.written = Ghost(self.written@.push(c));
        self.value = c;
    }
}

} // verus!
