use vstd::prelude::*;
use crate::credential::{CredentialError, CredentialState, CredentialStatus};

verus! {

/// One write to the record's storage.
pub enum StorageWrite {
    Initialize(Seq<char>, CredentialStatus),
    UpdateStatus(CredentialStatus),
}

impl CredentialState {
    /// The storage after one more write.
    pub open spec fn apply(self, w: StorageWrite) -> CredentialState {
        match w {
            StorageWrite::Initialize(h, s) => self.initialize(h, s),
            StorageWrite::UpdateStatus(s) => self.update_status(s),
        }
    }
}

/// The storage of a fresh record after the given writes, in order.
pub open spec fn replay(writes: Seq<StorageWrite>) -> CredentialState
    decreases writes.len(),
{
    if writes.len() == 0 {
        CredentialState::empty()
    } else {
        replay(writes.drop_last()).apply(writes.last())
    }
}

/// Round trip: after `initialize(hash, status)`, reading both slots yields
/// exactly that pair, and each single read yields its half.
pub proof fn lemma_initialize_then_read(st: CredentialState, hash: Seq<char>, status: CredentialStatus)
    ensures
        st.initialize(hash, status).info_read() == Ok::<(Seq<char>, CredentialStatus),
            CredentialError>((hash, status)),
        st.initialize(hash, status).hash_read() == Ok::<Seq<char>, CredentialError>(hash),
        st.initialize(hash, status).status_read() == Ok::<CredentialStatus, CredentialError>(
            status,
        ),
{
}

/// After `update_status(status)`, the status read yields that status and the
/// hash read yields what it yielded before.
pub proof fn lemma_update_status_then_read(st: CredentialState, status: CredentialStatus)
    ensures
        st.update_status(status).status_read() == Ok::<CredentialStatus, CredentialError>(
            status,
        ),
        st.update_status(status).hash_read() == st.hash_read(),
{
}

/// As long as `initialize` has never been called, the hash read and the
/// combined read fail with `NotInitialized`; on a record never written at
/// all, the status read fails too.
pub proof fn lemma_reads_fail_before_initialize(writes: Seq<StorageWrite>)
    requires
        forall|i: int| 0 <= i < writes.len() ==> !(#[trigger] writes[i] is Initialize),
    ensures
        replay(writes).hash_read() == Err::<Seq<char>, CredentialError>(
            CredentialError::NotInitialized,
        ),
        replay(writes).info_read() == Err::<(Seq<char>, CredentialStatus), CredentialError>(
            CredentialError::NotInitialized,
        ),
        writes.len() == 0 ==> replay(writes).status_read() == Err::<
            CredentialStatus,
            CredentialError,
        >(CredentialError::NotInitialized),
    decreases writes.len(),
{
    if writes.len() > 0 {
        let prefix = writes.drop_last();
        assert forall|i: int| 0 <= i < prefix.len() implies !(#[trigger] prefix[i] is Initialize) by {
            assert(prefix[i] == writes[i]);
        }
        lemma_reads_fail_before_initialize(prefix);
        assert(!(writes[writes.len() - 1] is Initialize));
    }
}

/// Once `initialize` has been called, both slots are set, whatever writes
/// came before or after it.
pub proof fn lemma_initialized_has_both(writes: Seq<StorageWrite>, k: int)
    requires
        0 <= k < writes.len(),
        writes[k] is Initialize,
    ensures
        replay(writes).hash is Some,
        replay(writes).status is Some,
    decreases writes.len(),
{
    if k < writes.len() - 1 {
        lemma_initialized_has_both(writes.drop_last(), k);
    }
}

/// Re-initialization overwrites both slots: no trace of the earlier
/// contents stays observable.
pub proof fn lemma_reinitialize_overwrites(
    st: CredentialState,
    hash1: Seq<char>,
    status1: CredentialStatus,
    hash2: Seq<char>,
    status2: CredentialStatus,
)
    ensures
        st.initialize(hash1, status1).initialize(hash2, status2) == CredentialState::empty().initialize(
            hash2,
            status2,
        ),
        st.initialize(hash1, status1).initialize(hash2, status2).info_read() == Ok::<
            (Seq<char>, CredentialStatus),
            CredentialError,
        >((hash2, status2)),
{
}

/// Whatever writes came before, the storage after `initialize(hash, status)`
/// is that of a fresh record initialized with the same pair.
pub proof fn lemma_initialize_forgets_history(
    writes: Seq<StorageWrite>,
    hash: Seq<char>,
    status: CredentialStatus,
)
    ensures
        replay(writes.push(StorageWrite::Initialize(hash, status))) == replay(
            seq![StorageWrite::Initialize(hash, status)],
        ),
{
    let w = StorageWrite::Initialize(hash, status);
    assert(writes.push(w).drop_last() =~= writes);
    assert(seq![w].drop_last() =~= Seq::<StorageWrite>::empty());
}

} // verus!
