use std::sync::Arc;
use std::sync::Weak;

use safe_manually_drop::DropManually;
use safe_manually_drop::SafeManuallyDrop;

#[derive(Debug, Clone, Copy, PartialEq)]
pub enum DbState {
    Committed,
    RolledBack,
}

pub struct RawTransaction<'r> {
    db_state: &'r mut Option<DbState>,
}

impl<'r> RawTransaction<'r> {
    pub fn new(db_state: &'r mut Option<DbState>) -> Self {
        assert_eq!(*db_state, None);
        Self { db_state }
    }

    /// Owned access for a safer, type-wise, API.
    pub fn commit(self) {
        *self.db_state = Some(DbState::Committed);
    }

    /// Owned access for a safer, type-wise, API.
    pub fn roll_back(self) {
        *self.db_state = Some(DbState::RolledBack);
    }
}

/// Convenience wrapper around a [`RawTransaction`], which automatically rolls
/// back on drop. Users need to call [`Transaction::commit`] in order to
/// instead persist the changes; explicit calls to [`Transaction::roll_back`]
/// remain possible.
pub struct Transaction<'r> {
    raw_txn: SafeManuallyDrop<RawTransaction<'r>, Self>,
    _some_other_owned_resource: Weak<()>,
}

impl<'r> DropManually<RawTransaction<'r>> for Transaction<'r> {
    fn drop_manually(raw_txn: RawTransaction<'r>) {
        raw_txn.roll_back();
    }
}

impl<'r> Transaction<'r> {
    pub fn new(db_state: &'r mut Option<DbState>, ref_count: &Arc<()>) -> Self {
        Self {
            raw_txn: SafeManuallyDrop::new(RawTransaction::new(db_state)),
            _some_other_owned_resource: Arc::downgrade(ref_count),
        }
    }

    pub fn roll_back(self) {
        // already done in drop (of `self.raw_txn`).
    }

    /// Extracts owned access to the raw transaction with the prepended drop
    /// logic — and only it — defused; the drop glue of the remaining fields,
    /// such as the owned `Weak` handle, stays active.
    pub fn commit(self) {
        let raw_txn: RawTransaction<'_> = self.raw_txn.into_inner_defusing_impl_Drop();
        raw_txn.commit();
    }
}

#[test]
fn test_txn_lib() {
    let db_state = &mut None;
    let ref_count = &Arc::new(());

    *db_state = None;
    {
        assert_eq!(Arc::weak_count(ref_count), 0);
        let _txn = Transaction::new(db_state, ref_count);
        assert_eq!(Arc::weak_count(ref_count), 1);
    } // drop(_txn);
    assert_eq!(*db_state, Some(DbState::RolledBack));
    assert_eq!(Arc::weak_count(ref_count), 0);

    *db_state = None;
    {
        assert_eq!(Arc::weak_count(ref_count), 0);
        let txn = Transaction::new(db_state, ref_count);
        assert_eq!(Arc::weak_count(ref_count), 1);
        txn.commit();
    }
    assert_eq!(*db_state, Some(DbState::Committed));
    assert_eq!(Arc::weak_count(ref_count), 0);

    *db_state = None;
    {
        assert_eq!(Arc::weak_count(ref_count), 0);
        let txn = Transaction::new(db_state, ref_count);
        assert_eq!(Arc::weak_count(ref_count), 1);
        txn.roll_back();
    }
    assert_eq!(*db_state, Some(DbState::RolledBack));
    assert_eq!(Arc::weak_count(ref_count), 0);

    *db_state = None;
    {
        assert_eq!(Arc::weak_count(ref_count), 0);
        let txn = Transaction::new(db_state, ref_count);
        assert_eq!(Arc::weak_count(ref_count), 1);
        ::core::mem::forget(txn);
    }
    assert_eq!(*db_state, None);
    assert_eq!(Arc::weak_count(ref_count), 1); // Leak!
}
