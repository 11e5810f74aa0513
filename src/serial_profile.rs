use vstd::prelude::*;

use crate::gap::SerialProfileParams;
use crate::host::{Action, CallbackChange};

verus! {

/// Head of every running-profile record: the address of the descriptor that
/// created it. The descriptor's address tells the profiles apart.
#[derive(Clone, Copy, Debug, PartialEq, Eq, Structural)]
pub struct ProfileBase {
    pub config: usize,
}

/// The running-profile record of the serial profile: the descriptor
/// back-pointer and the GATT services that the profile owns.
#[derive(Clone, Copy, Debug, PartialEq, Eq, Structural)]
pub struct BlePorfileSerial {
    pub base: ProfileBase,
    pub dev_info_svc: usize,
    pub battery_svc: usize,
    pub serial_svc: usize,
}

/// What the descriptor's stop entry does with the handle it was given.
#[derive(Clone, Copy, Debug, PartialEq, Eq, Structural)]
pub enum StopDecision {
    /// The handle is null: nothing is touched.
    SkipNull,
    /// The handle belongs to another profile: nothing is touched.
    SkipForeign,
    /// The handle is ours: its services are stopped and the record reclaimed.
    TearDown,
}

/// Builds the running-profile record from the services that the host started,
/// tagged with the descriptor `config`.
pub fn start_profile(config: usize, dev_info_svc: usize, battery_svc: usize, serial_svc: usize) -> (r:
    BlePorfileSerial)
    ensures
        r == (BlePorfileSerial {
            base: ProfileBase { config },
            dev_info_svc,
            battery_svc,
            serial_svc,
        }),
{
    BlePorfileSerial { base: ProfileBase { config }, dev_info_svc, battery_svc, serial_svc }
}

/// The guard of the stop entry: only a non-null handle whose descriptor is
/// `own_config` is torn down.
pub open spec fn stop_decision_of(base: Option<ProfileBase>, own_config: usize) -> StopDecision {
    match base {
        None => StopDecision::SkipNull,
        Some(b) => if b.config == own_config {
            StopDecision::TearDown
        } else {
            StopDecision::SkipForeign
        },
    }
}

/// Decides what the stop entry does with the head of the record it was
/// handed (`None` for a null handle). A foreign or null handle is skipped,
/// which is no error.
pub fn stop_profile(base: Option<ProfileBase>, own_config: usize) -> (r: StopDecision)
    ensures
        r == stop_decision_of(base, own_config),
{
    match base {
        None => StopDecision::SkipNull,
        Some(b) => if b.config == own_config {
            StopDecision::TearDown
        } else {
            StopDecision::SkipForeign
        },
    }
}

/// Stopping a record's services in reverse order of their creation, then
/// reclaiming the record.
pub open spec fn teardown_actions_of(profile: BlePorfileSerial) -> Seq<Action> {
    seq![
        Action::StopSerialService { serial_svc: profile.serial_svc },
        Action::StopBatteryService { battery_svc: profile.battery_svc },
        Action::StopDevInfoService { dev_info_svc: profile.dev_info_svc },
        Action::ReleaseProfileRecord,
    ]
}

/// The steps that tear a record of ours down.
pub fn teardown_actions(profile: &BlePorfileSerial) -> (r: Vec<Action>)
    ensures
        r@ == teardown_actions_of(*profile),
{
    let mut r: Vec<Action> = Vec::new();
    r.push(Action::StopSerialService { serial_svc: profile.serial_svc });
    r.push(Action::StopBatteryService { battery_svc: profile.battery_svc });
    r.push(Action::StopDevInfoService { dev_info_svc: profile.dev_info_svc });
    r.push(Action::ReleaseProfileRecord);
    assert(r@ =~= teardown_actions_of(*profile));
    r
}

/// A stop entry handed a foreign handle leaves every record alone: its
/// decision is a skip, never a teardown, and a skip is no error.
pub proof fn stop_guard_skips_foreign(base: ProfileBase, own_config: usize)
    requires
        base.config != own_config,
    ensures
        stop_decision_of(Some(base), own_config) == StopDecision::SkipForeign,
        stop_decision_of(Some(base), own_config) != StopDecision::TearDown,
{
}

/// The step that asks the host to start the profile on radio record `record`.
pub fn setup_profile(record: usize, params: SerialProfileParams) -> (r: Action)
    ensures
        r == (Action::StartProfile { record, params }),
{
    Action::StartProfile { record, params }
}

/// Why a data-event callback could not be installed.
#[derive(Clone, Copy, Debug, PartialEq, Eq, Structural)]
pub enum ProfileError {
    /// The profile handle is null: the profile never started.
    NotRunning,
    /// The profile has no serial service.
    NoSerialService,
}

/// Clearing the serial callback slot: the native pointer first (where there
/// is a service to clear it on), then the registration.
pub open spec fn clear_serial_actions(serial_svc: usize) -> Seq<Action> {
    if serial_svc != 0 {
        seq![Action::ClearSerialCallback { serial_svc }, Action::ReleaseRegistration]
    } else {
        seq![Action::ReleaseRegistration]
    }
}

/// Replacing the serial callback: clear the old one, then install the new.
pub open spec fn set_serial_actions(serial_svc: usize, buffer_size: u16) -> Seq<Action> {
    clear_serial_actions(serial_svc).push(
        Action::InstallSerialCallback { serial_svc, buffer_size },
    )
}

/// The serial profile while it runs: the handle of its running-profile record,
/// its serial service, and the data-event registration it installed, if any.
/// `R` is the registration type; the profile owns the one it holds.
pub struct SerialProfile<R> {
    profile_base: usize,
    serial_svc: usize,
    event_callback: Option<R>,
}

impl<R> SerialProfile<R> {
    pub closed spec fn base(&self) -> usize {
        self.profile_base
    }

    pub closed spec fn service(&self) -> usize {
        self.serial_svc
    }

    /// The registration in the callback slot.
    pub closed spec fn callback(&self) -> Option<R> {
        self.event_callback
    }

    /// The same profile with `slot` in its callback slot.
    pub closed spec fn with_callback(self, slot: Option<R>) -> Self {
        SerialProfile { event_callback: slot, ..self }
    }

    pub broadcast proof fn with_callback_fields(self, slot: Option<R>)
        ensures
            #[trigger] self.with_callback(slot).base() == self.base(),
            self.with_callback(slot).service() == self.service(),
            self.with_callback(slot).callback() == slot,
    {
    }

    /// Wraps the handles that the host returned at start; no callback yet.
    pub fn new(profile_base: usize, serial_svc: usize) -> (r: Self)
        ensures
            r.base() == profile_base,
            r.service() == serial_svc,
            r.callback() is None,
    {
        SerialProfile { profile_base, serial_svc, event_callback: None }
    }

    pub fn as_ptr(&self) -> (r: usize)
        ensures
            r == self.base(),
    {
        self.profile_base
    }

    pub fn serial_service(&self) -> (r: usize)
        ensures
            r == self.service(),
    {
        self.serial_svc
    }

    /// The installed registration, if any.
    pub fn event_callback(&self) -> (r: Option<&R>)
        ensures
            r is Some <==> self.callback() is Some,
            r is Some ==> *r->0 == self.callback()->0,
    {
        self.event_callback.as_ref()
    }

    /// Installs `registration` as the data-event callback. The previous one
    /// leaves the slot and is handed back for release; the steps clear its
    /// native pointer before it is released and the new one is installed.
    /// Fails, leaving the profile as it was, when the profile handle or its
    /// serial service is null; `registration` is then dropped.
    pub fn set_event_callback(&mut self, buffer_size: u16, registration: R) -> (r: Result<
        CallbackChange<R>,
        ProfileError,
    >)
        ensures
            match r {
                Ok(change) => {
                    &&& old(self).base() != 0
                    &&& old(self).service() != 0
                    &&& *final(self) == old(self).with_callback(Some(registration))
                    &&& change.released == old(self).callback()
                    &&& change.actions@ == set_serial_actions(old(self).service(), buffer_size)
                },
                Err(e) => {
                    &&& *final(self) == *old(self)
                    &&& e == (if old(self).base() == 0 {
                        ProfileError::NotRunning
                    } else {
                        ProfileError::NoSerialService
                    })
                    &&& (old(self).base() == 0 || old(self).service() == 0)
                },
            },
    {
        if self.profile_base == 0 {
            return Err(ProfileError::NotRunning);
        }
        if self.serial_svc == 0 {
            return Err(ProfileError::NoSerialService);
        }
        let cleared = self.drop_event_callback();
        let mut actions = cleared.actions;
        actions.push(Action::InstallSerialCallback { serial_svc: self.serial_svc, buffer_size });
        self.event_callback = Some(registration);
        Ok(CallbackChange { actions, released: cleared.released })
    }

    /// Empties the callback slot: the native pointer is cleared, then the
    /// registration that was installed, if any, is handed back for release.
    /// On an empty slot nothing is released.
    pub fn drop_event_callback(&mut self) -> (r: CallbackChange<R>)
        ensures
            *final(self) == old(self).with_callback(None),
            r.released == old(self).callback(),
            r.actions@ == clear_serial_actions(old(self).service()),
    {
        let mut actions: Vec<Action> = Vec::new();
        if self.serial_svc != 0 {
            actions.push(Action::ClearSerialCallback { serial_svc: self.serial_svc });
        }
        actions.push(Action::ReleaseRegistration);
        let released = self.event_callback.take();
        proof {
            assert(actions@ =~= clear_serial_actions(old(self).service()));
            assert(*self == old(self).with_callback(None));
        }
        CallbackChange { actions, released }
    }

    /// Ends the profile when its owner goes away without a restore: the
    /// installed callback is cleared and released.
    pub fn close(self) -> (r: CallbackChange<R>)
        ensures
            r.released == self.callback(),
            r.actions@ == clear_serial_actions(self.service()),
    {
        let mut s = self;
        s.drop_event_callback()
    }
}

/// Installing a second registration into an occupied slot: afterwards
/// exactly the second one is installed, and the first one is handed back for
/// release by the second installation, once. `p0` is the profile before the
/// first `set_event_callback`, `rel1` and `rel2` what the two calls handed
/// back, `p1` and `p2` the profile after each.
pub proof fn serial_callback_replacement<R>(
    p0: SerialProfile<R>,
    first: R,
    second: R,
    p1: SerialProfile<R>,
    rel1: Option<R>,
    p2: SerialProfile<R>,
    rel2: Option<R>,
)
    requires
        p1 == p0.with_callback(Some(first)),
        rel1 == p0.callback(),
        p2 == p1.with_callback(Some(second)),
        rel2 == p1.callback(),
    ensures
        p2.callback() == Some(second),
        rel2 == Some(first),
        p2 == p0.with_callback(Some(second)),
{
    broadcast use SerialProfile::with_callback_fields;

}

/// Dropping the data-event callback twice in a row: the second call hands
/// nothing back and leaves the profile as the first call left it. `p0` is the
/// profile before the first `drop_event_callback`, `rel2` what the second
/// handed back.
pub proof fn serial_drop_callback_idempotent<R>(
    p0: SerialProfile<R>,
    p1: SerialProfile<R>,
    p2: SerialProfile<R>,
    rel2: Option<R>,
)
    requires
        p1 == p0.with_callback(None),
        p2 == p1.with_callback(None),
        rel2 == p1.callback(),
    ensures
        rel2 is None,
        p2 == p1,
{
    broadcast use SerialProfile::with_callback_fields;

}

} // verus!
