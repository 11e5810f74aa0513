use vstd::prelude::*;

use crate::gap::SerialProfileParams;

verus! {

/// Milliseconds to wait after a disconnect or a profile restore, so that the
/// radio core can finish writing its bonding state to non-volatile storage.
pub const SETTLE_MILLIS: u32 = 200;

/// One step that the caller performs against the host radio stack, in the
/// order in which a controller hands the steps out. Handles are addresses of
/// host objects; zero stands for null.
#[derive(Clone, Copy, Debug, PartialEq, Eq)]
pub enum Action {
    /// Remove the radio record's status-change callback.
    ClearStatusCallback { record: usize },
    /// Point the radio record's status-change callback at the installed
    /// registration.
    InstallStatusCallback { record: usize },
    /// Remove the serial service's data-event callback.
    ClearSerialCallback { serial_svc: usize },
    /// Point the serial service's data-event callback at the installed
    /// registration.
    InstallSerialCallback { serial_svc: usize, buffer_size: u16 },
    /// Drop the registration handed back with the steps, if any.
    ReleaseRegistration,
    /// Tear down the active link.
    Disconnect { record: usize },
    /// Wait for the radio core to settle.
    Settle { millis: u32 },
    /// Put the factory profile back in place.
    RestoreDefaultProfile { record: usize },
    StartAdvertising,
    StopAdvertising,
    ForgetBondedDevices { record: usize },
    /// Ask the host to start the custom profile with these parameters.
    StartProfile { record: usize, params: SerialProfileParams },
    StopSerialService { serial_svc: usize },
    StopBatteryService { battery_svc: usize },
    StopDevInfoService { dev_info_svc: usize },
    /// Reclaim the running-profile record handed to the host at start.
    ReleaseProfileRecord,
}

/// The steps of a change to a callback slot, with the registration that left
/// the slot. The caller drops `released` when it reaches
/// `Action::ReleaseRegistration`, after the native pointer was cleared.
pub struct CallbackChange<R> {
    pub actions: Vec<Action>,
    pub released: Option<R>,
}

/// Waiting for the radio core after a state-changing call.
pub open spec fn settle_actions() -> Seq<Action> {
    seq![Action::Settle { millis: SETTLE_MILLIS }]
}

} // verus!
