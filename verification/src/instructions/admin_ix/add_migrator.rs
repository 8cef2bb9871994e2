//! Allowing a migrator.
use vstd::prelude::*;
use crate::accounts_ix::add_migrator_ix::AddMigrator;
use crate::state::configuration::Migrator;

verus! {

/// What `handle_add_migrator` does: the accounts before (`o`) and after (`f`).
pub open spec fn add_migrator_effect(
    o: AddMigrator,
    f: AddMigrator,
    migrator_marker_bump: u8,
) -> bool {
    &&& f == (AddMigrator { migrator_marker_acc: Migrator { bump: migrator_marker_bump }, ..o })
}

/// Records the bump seed of the new migrator marker, whose existence allows the migrator.
pub fn handle_add_migrator(accs: &mut AddMigrator, migrator_marker_bump: u8)
    ensures
        add_migrator_effect(*old(accs), *final(accs), migrator_marker_bump),
{
    accs.migrator_marker_acc.bump = migrator_marker_bump;
}

} // verus!
