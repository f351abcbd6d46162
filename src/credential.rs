use vstd::prelude::*;

verus! {

/// The lifecycle status of a credential: always exactly one of three values.
#[derive(Clone, Copy, Debug, PartialEq, Eq, Structural)]
pub enum CredentialStatus {
    Active,
    Revoked,
    Suspended,
}

/// Why a read of the record failed.
#[derive(Clone, Copy, Debug, PartialEq, Eq, Structural)]
pub enum CredentialError {
    /// The slot that was read has never been written.
    NotInitialized,
}

/// The abstract content of the record's storage: each of the two slots is
/// either unset or holds a value.
pub struct CredentialState {
    pub hash: Option<Seq<char>>,
    pub status: Option<CredentialStatus>,
}

impl CredentialState {
    /// Storage in which neither slot has been written.
    pub open spec fn empty() -> CredentialState {
        CredentialState { hash: None, status: None }
    }

    /// Both slots overwritten, whatever they held before.
    pub open spec fn initialize(self, hash: Seq<char>, status: CredentialStatus) -> CredentialState {
        CredentialState { hash: Some(hash), status: Some(status) }
    }

    /// The status slot overwritten; the hash slot untouched.
    pub open spec fn update_status(self, status: CredentialStatus) -> CredentialState {
        CredentialState { hash: self.hash, status: Some(status) }
    }

    /// What a read of the hash slot yields.
    pub open spec fn hash_read(self) -> Result<Seq<char>, CredentialError> {
        match self.hash {
            Some(h) => Ok(h),
            None => Err(CredentialError::NotInitialized),
        }
    }

    /// What a read of the status slot yields.
    pub open spec fn status_read(self) -> Result<CredentialStatus, CredentialError> {
        match self.status {
            Some(s) => Ok(s),
            None => Err(CredentialError::NotInitialized),
        }
    }

    /// What a read of both slots together yields: it fails if either is unset.
    pub open spec fn info_read(self) -> Result<(Seq<char>, CredentialStatus), CredentialError> {
        match (self.hash, self.status) {
            (Some(h), Some(s)) => Ok((h, s)),
            _ => Err(CredentialError::NotInitialized),
        }
    }
}

/// The view of an optional stored string.
pub open spec fn opt_view(o: Option<String>) -> Option<Seq<char>> {
    match o {
        Some(s) => Some(s@),
        None => None,
    }
}

/// The credential record of one contract instance, held in two storage
/// slots: the credential's fingerprint and its current status.
///
/// No write is guarded: `initialize` may be called again, and
/// `update_status` may write the status before any hash was stored.
pub struct CredentialContract {
    hash: Option<String>,
    status: Option<CredentialStatus>,
}

impl View for CredentialContract {
    type V = CredentialState;

    closed spec fn view(&self) -> CredentialState {
        CredentialState { hash: opt_view(self.hash), status: self.status }
    }
}

impl CredentialContract {
    /// A record whose storage has never been written.
    pub fn new() -> (r: CredentialContract)
        ensures
            r@ == CredentialState::empty(),
    {
        CredentialContract { hash: None, status: None }
    }

    /// A record over storage slots that already hold the given values.
    pub fn from_slots(hash: Option<String>, status: Option<CredentialStatus>) -> (r:
        CredentialContract)
        ensures
            r@ == (CredentialState { hash: opt_view(hash), status: status }),
    {
        CredentialContract { hash, status }
    }

    /// The contents of the two storage slots.
    pub fn into_slots(self) -> (r: (Option<String>, Option<CredentialStatus>))
        ensures
            opt_view(r.0) == self@.hash,
            r.1 == self@.status,
    {
        (self.hash, self.status)
    }

    /// Stores both the fingerprint and the status, overwriting whatever the
    /// record held before.
    pub fn initialize(&mut self, hash: String, status: CredentialStatus)
        ensures
            final(self)@ == old(self)@.initialize(hash@, status),
    {
        self.hash = Some(hash);
        self.status = Some(status);
    }

    /// The stored fingerprint, or `NotInitialized` if none was ever stored.
    pub fn get_hash(&self) -> (r: Result<String, CredentialError>)
        ensures
            match r {
                Ok(h) => self@.hash_read() == Ok::<Seq<char>, CredentialError>(h@),
                Err(e) => self@.hash_read() == Err::<Seq<char>, CredentialError>(e),
            },
    {
        match &self.hash {
            Some(h) => Ok(h.clone()),
            None => Err(CredentialError::NotInitialized),
        }
    }

    /// The stored status, or `NotInitialized` if none was ever stored.
    pub fn get_status(&self) -> (r: Result<CredentialStatus, CredentialError>)
        ensures
            r == self@.status_read(),
    {
        match self.status {
            Some(s) => Ok(s),
            None => Err(CredentialError::NotInitialized),
        }
    }

    /// Overwrites the stored status; the fingerprint is left as it was.
    pub fn update_status(&mut self, new_status: CredentialStatus)
        ensures
            final(self)@ == old(self)@.update_status(new_status),
    {
        self.status = Some(new_status);
    }

    /// The fingerprint and the status as one snapshot, or `NotInitialized`
    /// if either slot is unset.
    pub fn get_credential_info(&self) -> (r: Result<(String, CredentialStatus), CredentialError>)
        ensures
            match r {
                Ok((h, s)) => self@.info_read() == Ok::<(Seq<char>, CredentialStatus),
                    CredentialError>((h@, s)),
                Err(e) => self@.info_read() == Err::<(Seq<char>, CredentialStatus),
                    CredentialError>(e),
            },
    {
        let hash = match self.get_hash() {
            Ok(h) => h,
            Err(e) => return Err(e),
        };
        let status = match self.get_status() {
            Ok(s) => s,
            Err(e) => return Err(e),
        };
        Ok((hash, status))
    }
}

} // verus!
