//! Rollback of an account creation that did not finish.
//!
//! Creating an account writes several resources one after another. The guard
//! records which of them exist; when the creation ends without being
//! committed, the guard's cleanup removes what was created and puts the old
//! user list back.

use vstd::prelude::*;

verus! {

/// One cleanup step; the application maps each to its path or entry.
#[derive(PartialEq, Eq, Structural, Debug, Clone, Copy)]
pub enum CleanupStep {
    RemoveEncryptedTmp,
    RemoveUsersTmp,
    RemoveBackupTmp,
    RemoveEncrypted,
    RemoveSqliteFolder,
    RestoreBackup,
    DeleteKeyringEntry,
}

/// What has been created so far, and whether the creation was committed.
pub struct AccountCreationGuard {
    pub backup_created: bool,
    pub keyring_created: bool,
    pub committed: bool,
}

/// The steps a guard in state `g` takes when it goes away: the temporary
/// files always go; an uncommitted creation also loses its encrypted file and
/// database folder, gets the user list back from the backup if one was made,
/// and loses its keyring entry if one was stored.
pub open spec fn cleanup_plan(g: AccountCreationGuard) -> Seq<CleanupStep> {
    let temporary = seq![
        CleanupStep::RemoveEncryptedTmp,
        CleanupStep::RemoveUsersTmp,
        CleanupStep::RemoveBackupTmp,
    ];
    if g.committed {
        temporary
    } else {
        temporary + seq![CleanupStep::RemoveEncrypted, CleanupStep::RemoveSqliteFolder] + (
        if g.backup_created {
            seq![CleanupStep::RestoreBackup]
        } else {
            Seq::empty()
        }) + (if g.keyring_created {
            seq![CleanupStep::DeleteKeyringEntry]
        } else {
            Seq::empty()
        })
    }
}

impl AccountCreationGuard {
    /// A guard for a creation that has produced nothing yet.
    pub fn new() -> (g: AccountCreationGuard)
        ensures
            !g.backup_created,
            !g.keyring_created,
            !g.committed,
    {
        AccountCreationGuard { backup_created: false, keyring_created: false, committed: false }
    }

    /// Records that the backup of the user list has been made: an
    /// uncommitted creation now restores it.
    pub fn backup_made(&mut self)
        ensures
            *final(self) == (AccountCreationGuard { backup_created: true, ..*old(self) }),
    {
        self.backup_created = true;
    }

    /// Records that the account's passphrase is in the keyring: an
    /// uncommitted creation now deletes that entry.
    pub fn key_stored(&mut self)
        ensures
            *final(self) == (AccountCreationGuard { keyring_created: true, ..*old(self) }),
    {
        self.keyring_created = true;
    }

    /// Marks the creation as finished: the account's resources stay.
    pub fn commit(&mut self)
        ensures
            final(self).committed,
            final(self).backup_created == old(self).backup_created,
            final(self).keyring_created == old(self).keyring_created,
    {
        self.committed = true;
    }

    /// The steps to take when the guard goes away, in order.
    pub fn cleanup(&self) -> (steps: Vec<CleanupStep>)
        ensures
            steps@ == cleanup_plan(*self),
    {
        let mut steps: Vec<CleanupStep> = Vec::new();
        steps.push(CleanupStep::RemoveEncryptedTmp);
        steps.push(CleanupStep::RemoveUsersTmp);
        steps.push(CleanupStep::RemoveBackupTmp);
        if self.committed {
            assert(steps@ =~= cleanup_plan(*self));
            return steps;
        }
        steps.push(CleanupStep::RemoveEncrypted);
        steps.push(CleanupStep::RemoveSqliteFolder);
        if self.backup_created {
            steps.push(CleanupStep::RestoreBackup);
        }
        if self.keyring_created {
            steps.push(CleanupStep::DeleteKeyringEntry);
        }
        assert(steps@ =~= cleanup_plan(*self));
        steps
    }
}

/// A committed creation is never undone: its cleanup only removes the
/// temporary files, and never the account's encrypted file, database folder
/// or keyring entry, nor does it restore the old user list.
pub proof fn lemma_committed_account_is_kept(g: AccountCreationGuard)
    requires
        g.committed,
    ensures
        !cleanup_plan(g).contains(CleanupStep::RemoveEncrypted),
        !cleanup_plan(g).contains(CleanupStep::RemoveSqliteFolder),
        !cleanup_plan(g).contains(CleanupStep::RestoreBackup),
        !cleanup_plan(g).contains(CleanupStep::DeleteKeyringEntry),
{
    let p = cleanup_plan(g);
    assert(p =~= seq![
        CleanupStep::RemoveEncryptedTmp,
        CleanupStep::RemoveUsersTmp,
        CleanupStep::RemoveBackupTmp,
    ]);
    assert forall|s: CleanupStep| #[trigger] p.contains(s) implies (s == CleanupStep::RemoveEncryptedTmp
        || s == CleanupStep::RemoveUsersTmp || s == CleanupStep::RemoveBackupTmp) by {
        let k = choose|k: int| 0 <= k < p.len() && p[k] == s;
    }
}

/// An uncommitted creation removes everything it created: the encrypted file
/// and database folder always, the keyring entry exactly when it was stored,
/// and it restores the old user list exactly when a backup was made.
pub proof fn lemma_failed_creation_is_undone(g: AccountCreationGuard)
    requires
        !g.committed,
    ensures
        cleanup_plan(g).contains(CleanupStep::RemoveEncrypted),
        cleanup_plan(g).contains(CleanupStep::RemoveSqliteFolder),
        cleanup_plan(g).contains(CleanupStep::RestoreBackup) <==> g.backup_created,
        cleanup_plan(g).contains(CleanupStep::DeleteKeyringEntry) <==> g.keyring_created,
{
    let p = cleanup_plan(g);
    assert(p[3] == CleanupStep::RemoveEncrypted);
    assert(p[4] == CleanupStep::RemoveSqliteFolder);
    if g.backup_created {
        assert(p[5] == CleanupStep::RestoreBackup);
    }
    if g.keyring_created {
        assert(p[p.len() - 1] == CleanupStep::DeleteKeyringEntry);
    }
    assert forall|s: CleanupStep| #[trigger] p.contains(s) && s == CleanupStep::RestoreBackup implies g.backup_created by {
        let k = choose|k: int| 0 <= k < p.len() && p[k] == s;
    }
    assert forall|s: CleanupStep| #[trigger] p.contains(s) && s == CleanupStep::DeleteKeyringEntry implies g.keyring_created by {
        let k = choose|k: int| 0 <= k < p.len() && p[k] == s;
    }
}

} // verus!
