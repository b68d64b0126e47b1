//! Which channels the service offers while the helper is being taken into use.
use vstd::prelude::*;

verus! {

/// The number of a mode that is not set yet.
pub const MODE_UNINITIALIZED: u8 = 0;

pub const MODE_PROTECTED_ONLY: u8 = 1;

pub const MODE_MIGRATION_READINESS: u8 = 2;

pub const MODE_LEGACY_ROLLBACK: u8 = 3;

/// What the service offers.
#[derive(Clone, Copy, Debug, PartialEq, Eq, Structural)]
pub enum ServiceIpcMode {
    ProtectedOnly,
    MigrationReadiness,
    LegacyRollback,
}

impl ServiceIpcMode {
    /// The number that stands for a mode.
    pub open spec fn spec_value(self) -> u8 {
        match self {
            ServiceIpcMode::ProtectedOnly => MODE_PROTECTED_ONLY,
            ServiceIpcMode::MigrationReadiness => MODE_MIGRATION_READINESS,
            ServiceIpcMode::LegacyRollback => MODE_LEGACY_ROLLBACK,
        }
    }

    /// The number that stands for a mode.
    pub fn value(self) -> (r: u8)
        ensures
            r == self.spec_value(),
    {
        match self {
            ServiceIpcMode::ProtectedOnly => MODE_PROTECTED_ONLY,
            ServiceIpcMode::MigrationReadiness => MODE_MIGRATION_READINESS,
            ServiceIpcMode::LegacyRollback => MODE_LEGACY_ROLLBACK,
        }
    }

    /// The mode that a number stands for.
    pub fn from_value(value: u8) -> (r: Option<ServiceIpcMode>)
        ensures
            r == mode_of(value),
    {
        if value == MODE_PROTECTED_ONLY {
            Some(ServiceIpcMode::ProtectedOnly)
        } else if value == MODE_MIGRATION_READINESS {
            Some(ServiceIpcMode::MigrationReadiness)
        } else if value == MODE_LEGACY_ROLLBACK {
            Some(ServiceIpcMode::LegacyRollback)
        } else {
            None
        }
    }

    /// Whether the protected channel works: in every mode but while the helper has
    /// to prove that it is ready.
    pub fn protected_ipc_enabled(self) -> (r: bool)
        ensures
            r == (self != ServiceIpcMode::MigrationReadiness),
    {
        self != ServiceIpcMode::MigrationReadiness
    }

    /// The mode once the move to the helper is complete. A rolled back service has
    /// none.
    pub fn after_migration_completion(self) -> (r: Option<ServiceIpcMode>)
        ensures
            r == completed_mode(self),
    {
        match self {
            ServiceIpcMode::MigrationReadiness => Some(ServiceIpcMode::ProtectedOnly),
            ServiceIpcMode::ProtectedOnly => Some(ServiceIpcMode::ProtectedOnly),
            ServiceIpcMode::LegacyRollback => None,
        }
    }
}

/// The mode that a number stands for.
pub open spec fn mode_of(value: u8) -> Option<ServiceIpcMode> {
    if value == MODE_PROTECTED_ONLY {
        Some(ServiceIpcMode::ProtectedOnly)
    } else if value == MODE_MIGRATION_READINESS {
        Some(ServiceIpcMode::MigrationReadiness)
    } else if value == MODE_LEGACY_ROLLBACK {
        Some(ServiceIpcMode::LegacyRollback)
    } else {
        None
    }
}

/// The mode once the move to the helper is complete.
pub open spec fn completed_mode(mode: ServiceIpcMode) -> Option<ServiceIpcMode> {
    if mode == ServiceIpcMode::LegacyRollback {
        None
    } else {
        Some(ServiceIpcMode::ProtectedOnly)
    }
}

/// Sets the mode of the process, which can be done once; setting the same mode
/// again changes nothing.
pub fn record_service_ipc_mode(current: &mut u8, mode: ServiceIpcMode) -> (r: Result<
    (),
    &'static str,
>)
    ensures
        match r {
            Ok(()) => (*old(current) == MODE_UNINITIALIZED || *old(current) == mode.spec_value())
                && *final(current) == mode.spec_value(),
            Err(e) => *old(current) != MODE_UNINITIALIZED && *old(current) != mode.spec_value()
                && *final(current) == *old(current) && e@
                == "macOS service IPC mode was already initialized differently"@,
        },
{
    if *current == MODE_UNINITIALIZED {
        *current = mode.value();
        return Ok(());
    }
    if *current == mode.value() {
        return Ok(());
    }
    Err("macOS service IPC mode was already initialized differently")
}

/// Opens the protected channel after the move to the helper.
pub fn complete_migration_readiness(current: &mut u8) -> (r: Result<(), &'static str>)
    ensures
        match mode_of(*old(current)) {
            None => r matches Err(e) && e@ == "macOS service IPC mode is not initialized"@
                && *final(current) == *old(current),
            Some(mode) => match completed_mode(mode) {
                None => r matches Err(e) && e@
                    == "legacy rollback IPC cannot transition to protected IPC"@ && *final(current)
                    == *old(current),
                Some(next) => r is Ok && *final(current) == next.spec_value(),
            },
        },
{
    match ServiceIpcMode::from_value(*current) {
        None => Err("macOS service IPC mode is not initialized"),
        Some(mode) => match mode.after_migration_completion() {
            None => Err("legacy rollback IPC cannot transition to protected IPC"),
            Some(next) => {
                *current = next.value();
                Ok(())
            },
        },
    }
}

/// Whether the protected channel works.
pub fn protected_service_ipc_enabled(current: u8) -> (r: bool)
    ensures
        r == (mode_of(current) matches Some(mode) && mode != ServiceIpcMode::MigrationReadiness),
{
    match ServiceIpcMode::from_value(current) {
        Some(mode) => mode.protected_ipc_enabled(),
        None => false,
    }
}

/// Whether the channel of a rolled back service works.
pub fn legacy_rollback_ipc_enabled(current: u8) -> (r: bool)
    ensures
        r == (mode_of(current) == Some(ServiceIpcMode::LegacyRollback)),
{
    match ServiceIpcMode::from_value(current) {
        Some(mode) => mode == ServiceIpcMode::LegacyRollback,
        None => false,
    }
}

/// A mode is read back from its number, and no mode has the number of none.
pub proof fn law_mode_numbers(mode: ServiceIpcMode)
    ensures
        mode_of(mode.spec_value()) == Some(mode),
        mode.spec_value() != MODE_UNINITIALIZED,
        mode_of(MODE_UNINITIALIZED) is None,
{
}

/// A rolled back service never gets the protected channel of a completed move, and
/// a completed move never goes back.
pub proof fn law_rollback_never_becomes_protected(mode: ServiceIpcMode)
    ensures
        completed_mode(mode) matches Some(next) ==> next == ServiceIpcMode::ProtectedOnly && mode
            != ServiceIpcMode::LegacyRollback,
        completed_mode(ServiceIpcMode::LegacyRollback) is None,
        completed_mode(ServiceIpcMode::ProtectedOnly) == Some(ServiceIpcMode::ProtectedOnly),
{
}

/// The numbers of the modes are one, two and three; completing the move from readiness
/// gives the protected channel.
pub proof fn law_mode_numbers_are_fixed(value: u8)
    ensures
        mode_of(value) is Some <==> 1 <= value <= 3,
        mode_of(1) == Some(ServiceIpcMode::ProtectedOnly),
        mode_of(2) == Some(ServiceIpcMode::MigrationReadiness),
        mode_of(3) == Some(ServiceIpcMode::LegacyRollback),
        completed_mode(ServiceIpcMode::MigrationReadiness) == Some(ServiceIpcMode::ProtectedOnly),
{
}

} // verus!
