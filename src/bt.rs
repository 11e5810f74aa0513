use vstd::prelude::*;

use crate::gap::SerialProfileParams;
use crate::host::{settle_actions, Action, CallbackChange, SETTLE_MILLIS};
use crate::serial_profile::{clear_serial_actions, setup_profile, SerialProfile};

verus! {

/// Where the custom profile stands.
#[derive(Clone, Copy, Debug, PartialEq, Eq, Structural)]
pub enum ProfileState {
    /// The factory profile is in place.
    Stopped,
    /// The host was asked to start the custom profile.
    Starting,
    /// The custom profile runs.
    Running,
}

/// Why a Bluetooth controller operation failed.
#[derive(Clone, Copy, Debug, PartialEq, Eq, Structural)]
pub enum BtError {
    /// The radio record is null.
    RecordUnavailable,
    /// A custom profile is already starting or running.
    ProfileActive,
    /// No start of the custom profile was asked for.
    NotStarting,
    /// The host returned a null profile handle.
    ProfileStartFailed,
}

/// Clearing the status callback slot: the native pointer, then the
/// registration.
pub open spec fn clear_status_actions(record: usize) -> Seq<Action> {
    seq![Action::ClearStatusCallback { record }, Action::ReleaseRegistration]
}

/// Replacing the status callback: clear the old one, then install the new.
pub open spec fn set_status_actions(record: usize) -> Seq<Action> {
    clear_status_actions(record).push(Action::InstallStatusCallback { record })
}

/// Tearing the link down and waiting for the radio core.
pub open spec fn disconnect_actions(record: usize) -> Seq<Action> {
    seq![Action::Disconnect { record }].add(settle_actions())
}

/// Putting the factory profile back and waiting for the radio core.
pub open spec fn restore_actions(record: usize) -> Seq<Action> {
    seq![Action::RestoreDefaultProfile { record }].add(settle_actions())
}

/// The Bluetooth controller: the radio record, the status-change registration
/// it installed, if any, and where the custom profile stands.
pub struct BluetoothApp<R> {
    record: usize,
    event_callback: Option<R>,
    profile: ProfileState,
}

impl<R> BluetoothApp<R> {
    pub closed spec fn record(&self) -> usize {
        self.record
    }

    /// The registration in the status callback slot.
    pub closed spec fn callback(&self) -> Option<R> {
        self.event_callback
    }

    pub closed spec fn state(&self) -> ProfileState {
        self.profile
    }

    /// The same controller with `slot` in its callback slot.
    pub closed spec fn with_callback(self, slot: Option<R>) -> Self {
        BluetoothApp { event_callback: slot, ..self }
    }

    /// The same controller with the profile in state `s`.
    pub closed spec fn with_state(self, s: ProfileState) -> Self {
        BluetoothApp { profile: s, ..self }
    }

    pub broadcast proof fn with_fields(self, slot: Option<R>, s: ProfileState)
        ensures
            #[trigger] self.with_callback(slot).record() == self.record(),
            self.with_callback(slot).callback() == slot,
            self.with_callback(slot).state() == self.state(),
            #[trigger] self.with_state(s).record() == self.record(),
            self.with_state(s).callback() == self.callback(),
            self.with_state(s).state() == s,
    {
    }

    /// Wraps the radio record opened on the host; no callback, factory profile.
    pub fn open(record: usize) -> (r: Self)
        ensures
            r.record() == record,
            r.callback() is None,
            r.state() == ProfileState::Stopped,
    {
        BluetoothApp { record, event_callback: None, profile: ProfileState::Stopped }
    }

    pub fn as_ptr(&self) -> (r: usize)
        ensures
            r == self.record(),
    {
        self.record
    }

    pub fn profile_state(&self) -> (r: ProfileState)
        ensures
            r == self.state(),
    {
        self.profile
    }

    /// The installed registration, if any.
    pub fn event_callback(&self) -> (r: Option<&R>)
        ensures
            r is Some <==> self.callback() is Some,
            r is Some ==> *r->0 == self.callback()->0,
    {
        self.event_callback.as_ref()
    }

    /// Tears the link down, then waits for the radio core to store its
    /// bonding state.
    pub fn disconnect(&self) -> (r: Vec<Action>)
        ensures
            r@ == disconnect_actions(self.record()),
    {
        let mut r: Vec<Action> = Vec::new();
        r.push(Action::Disconnect { record: self.record });
        r.push(Action::Settle { millis: SETTLE_MILLIS });
        assert(r@ =~= disconnect_actions(self.record()));
        r
    }

    pub fn stop_advertising(&self) -> (r: Action)
        ensures
            r == Action::StopAdvertising,
    {
        Action::StopAdvertising
    }

    pub fn start_advertising(&self) -> (r: Action)
        ensures
            r == Action::StartAdvertising,
    {
        Action::StartAdvertising
    }

    pub fn forget_bonded_devices(&self) -> (r: Action)
        ensures
            r == (Action::ForgetBondedDevices { record: self.record() }),
    {
        Action::ForgetBondedDevices { record: self.record }
    }

    /// Asks for the custom profile to be started with `params`. Only a
    /// controller with a radio record and with the factory profile in place
    /// may start it; it is then starting.
    pub fn serial_profile_start(&mut self, params: SerialProfileParams) -> (r: Result<
        Action,
        BtError,
    >)
        ensures
            match r {
                Ok(a) => {
                    &&& old(self).record() != 0
                    &&& old(self).state() == ProfileState::Stopped
                    &&& *final(self) == old(self).with_state(ProfileState::Starting)
                    &&& a == (Action::StartProfile { record: old(self).record(), params })
                },
                Err(e) => {
                    &&& *final(self) == *old(self)
                    &&& e == (if old(self).record() == 0 {
                        BtError::RecordUnavailable
                    } else {
                        BtError::ProfileActive
                    })
                    &&& (old(self).record() == 0 || old(self).state() != ProfileState::Stopped)
                },
            },
    {
        if self.record == 0 {
            return Err(BtError::RecordUnavailable);
        }
        match self.profile {
            ProfileState::Stopped => {},
            _ => {
                return Err(BtError::ProfileActive);
            },
        }
        self.profile = ProfileState::Starting;
        Ok(setup_profile(self.record, params))
    }

    /// Takes the handles that the host returned for a start asked for by
    /// `serial_profile_start`. A non-null profile handle makes the profile
    /// run; a null one puts the controller back to the factory profile.
    pub fn profile_started<S>(&mut self, profile_base: usize, serial_svc: usize) -> (r: Result<
        SerialProfile<S>,
        BtError,
    >)
        ensures
            match r {
                Ok(p) => {
                    &&& old(self).state() == ProfileState::Starting
                    &&& profile_base != 0
                    &&& *final(self) == old(self).with_state(ProfileState::Running)
                    &&& p.base() == profile_base
                    &&& p.service() == serial_svc
                    &&& p.callback() is None
                },
                Err(e) => if old(self).state() != ProfileState::Starting {
                    &&& e == BtError::NotStarting
                    &&& *final(self) == *old(self)
                } else {
                    &&& profile_base == 0
                    &&& e == BtError::ProfileStartFailed
                    &&& *final(self) == old(self).with_state(ProfileState::Stopped)
                },
            },
    {
        match self.profile {
            ProfileState::Starting => {},
            _ => {
                return Err(BtError::NotStarting);
            },
        }
        if profile_base == 0 {
            self.profile = ProfileState::Stopped;
            return Err(BtError::ProfileStartFailed);
        }
        self.profile = ProfileState::Running;
        Ok(SerialProfile::new(profile_base, serial_svc))
    }

    /// Installs `registration` as the status-change callback. The previous
    /// one leaves the slot and is handed back for release; the steps clear its
    /// native pointer before it is released and the new one is installed.
    /// Fails, leaving the controller as it was, when the radio record is null;
    /// `registration` is then dropped.
    pub fn set_status_change_callback(&mut self, registration: R) -> (r: Result<
        CallbackChange<R>,
        BtError,
    >)
        ensures
            match r {
                Ok(change) => {
                    &&& old(self).record() != 0
                    &&& *final(self) == old(self).with_callback(Some(registration))
                    &&& change.released == old(self).callback()
                    &&& change.actions@ == set_status_actions(old(self).record())
                },
                Err(e) => {
                    &&& old(self).record() == 0
                    &&& e == BtError::RecordUnavailable
                    &&& *final(self) == *old(self)
                },
            },
    {
        if self.record == 0 {
            return Err(BtError::RecordUnavailable);
        }
        let cleared = self.drop_event_callback();
        let mut actions = cleared.actions;
        actions.push(Action::InstallStatusCallback { record: self.record });
        self.event_callback = Some(registration);
        Ok(CallbackChange { actions, released: cleared.released })
    }

    /// Empties the status callback slot: the native pointer is cleared, then
    /// the registration that was installed, if any, is handed back for
    /// release. On an empty slot nothing is released.
    pub fn drop_event_callback(&mut self) -> (r: CallbackChange<R>)
        ensures
            *final(self) == old(self).with_callback(None),
            r.released == old(self).callback(),
            r.actions@ == clear_status_actions(old(self).record()),
    {
        let mut actions: Vec<Action> = Vec::new();
        actions.push(Action::ClearStatusCallback { record: self.record });
        actions.push(Action::ReleaseRegistration);
        let released = self.event_callback.take();
        proof {
            assert(actions@ =~= clear_status_actions(old(self).record()));
            assert(*self == old(self).with_callback(None));
        }
        CallbackChange { actions, released }
    }

    /// Puts the factory profile back, then waits for the radio core.
    pub fn restore_profile(&mut self) -> (r: Vec<Action>)
        ensures
            *final(self) == old(self).with_state(ProfileState::Stopped),
            r@ == restore_actions(old(self).record()),
    {
        let mut r: Vec<Action> = Vec::new();
        r.push(Action::RestoreDefaultProfile { record: self.record });
        r.push(Action::Settle { millis: SETTLE_MILLIS });
        self.profile = ProfileState::Stopped;
        proof {
            assert(r@ =~= restore_actions(old(self).record()));
            assert(*self == old(self).with_state(ProfileState::Stopped));
        }
        r
    }

    /// Ends the controller: the status callback is cleared and released, the
    /// link torn down and the factory profile put back, in that order.
    pub fn close(self) -> (r: CallbackChange<R>)
        ensures
            r.released == self.callback(),
            r.actions@ == clear_status_actions(self.record()).add(
                disconnect_actions(self.record()),
            ).add(restore_actions(self.record())),
    {
        let mut s = self;
        let cleared = s.drop_event_callback();
        let mut actions = cleared.actions;
        let mut link = s.disconnect();
        actions.append(&mut link);
        let mut restore = s.restore_profile();
        actions.append(&mut restore);
        proof {
            assert(actions@ =~= clear_status_actions(self.record()).add(
                disconnect_actions(self.record()),
            ).add(restore_actions(self.record())));
        }
        CallbackChange { actions, released: cleared.released }
    }
}

impl<S> SerialProfile<S> {
    /// Gives the factory profile back to `bt`: the data-event callback is
    /// cleared and released, the link torn down and the factory profile put
    /// back, in that order. `bt` then has the factory profile in place.
    pub fn restore<R>(self, bt: &mut BluetoothApp<R>) -> (r: CallbackChange<S>)
        ensures
            *final(bt) == old(bt).with_state(ProfileState::Stopped),
            r.released == self.callback(),
            r.actions@ == clear_serial_actions(self.service()).add(
                disconnect_actions(old(bt).record()),
            ).add(restore_actions(old(bt).record())),
    {
        let cleared = self.close();
        let mut actions = cleared.actions;
        let mut link = bt.disconnect();
        actions.append(&mut link);
        let mut restore = bt.restore_profile();
        actions.append(&mut restore);
        proof {
            assert(actions@ =~= clear_serial_actions(self.service()).add(
                disconnect_actions(old(bt).record()),
            ).add(restore_actions(old(bt).record())));
        }
        CallbackChange { actions, released: cleared.released }
    }
}

/// Installing a second status registration into an occupied slot:
/// afterwards exactly the second one is installed, and the first one is
/// handed back for release by the second installation, once. `b0` is the
/// controller before the first `set_status_change_callback`, `rel1` and
/// `rel2` what the two calls handed back, `b1` and `b2` the controller after
/// each.
pub proof fn status_callback_replacement<R>(
    b0: BluetoothApp<R>,
    first: R,
    second: R,
    b1: BluetoothApp<R>,
    rel1: Option<R>,
    b2: BluetoothApp<R>,
    rel2: Option<R>,
)
    requires
        b1 == b0.with_callback(Some(first)),
        rel1 == b0.callback(),
        b2 == b1.with_callback(Some(second)),
        rel2 == b1.callback(),
    ensures
        b2.callback() == Some(second),
        rel2 == Some(first),
        b2 == b0.with_callback(Some(second)),
{
    broadcast use BluetoothApp::with_fields;

}

/// Dropping the status callback twice in a row: the second call hands
/// nothing back and leaves the controller as the first call left it.
pub proof fn status_drop_callback_idempotent<R>(
    b0: BluetoothApp<R>,
    b1: BluetoothApp<R>,
    b2: BluetoothApp<R>,
    rel2: Option<R>,
)
    requires
        b1 == b0.with_callback(None),
        b2 == b1.with_callback(None),
        rel2 == b1.callback(),
    ensures
        rel2 is None,
        b2 == b1,
{
    broadcast use BluetoothApp::with_fields;

}

} // verus!
