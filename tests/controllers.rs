use std::cell::{Cell, RefCell};
use std::rc::Rc;

use btcon_client::bt::{BluetoothApp, BtError, ProfileState};
use btcon_client::callback::CallbackWrapper;
use btcon_client::gap::{base_gap_config, get_gap_config, HostIdentity, SerialProfileParams, ServiceUuidPolicy};
use btcon_client::host::{Action, SETTLE_MILLIS};
use btcon_client::serial_profile::{
    setup_profile, start_profile, stop_profile, teardown_actions, ProfileBase, ProfileError, SerialProfile,
    StopDecision,
};

const RECORD: usize = 0x2000_0100;
const BASE: usize = 0x2000_0200;
const SVC: usize = 0x2000_0300;

type StatusReg = Box<CallbackWrapper<Box<dyn Fn(u8)>>>;
type DataReg = Box<CallbackWrapper<Box<dyn Fn(u16) -> u16>>>;

/// Counts how often it is dropped.
struct DropCounter(Rc<Cell<u32>>);

impl Drop for DropCounter {
    fn drop(&mut self) {
        self.0.set(self.0.get() + 1);
    }
}

fn counted_data_reg(count: &Rc<Cell<u32>>, ack: u16) -> DataReg {
    let guard = DropCounter(count.clone());
    CallbackWrapper::new(Box::new(move |_size: u16| {
        let _ = &guard;
        ack
    }))
}

fn counted_status_reg(count: &Rc<Cell<u32>>) -> StatusReg {
    let guard = DropCounter(count.clone());
    CallbackWrapper::new(Box::new(move |_status: u8| {
        let _ = &guard;
    }))
}

fn params() -> SerialProfileParams {
    SerialProfileParams { adv_name: "Test", appearance_char: Some(0x0040), service_uuid: Some(0x110A), mac_xor: 0x0001 }
}

#[test]
fn wrapper_keeps_its_callback() {
    let w = CallbackWrapper::new(|x: u16| x + 1);
    assert_eq!((w.callback)(41), 42);
}

#[test]
fn serial_callback_replacement_releases_first_once() {
    let first = Rc::new(Cell::new(0));
    let second = Rc::new(Cell::new(0));
    let mut p: SerialProfile<DataReg> = SerialProfile::new(BASE, SVC);
    let change = p.set_event_callback(128, counted_data_reg(&first, 1)).unwrap();
    assert!(change.released.is_none());
    assert_eq!(
        change.actions,
        vec![
            Action::ClearSerialCallback { serial_svc: SVC },
            Action::ReleaseRegistration,
            Action::InstallSerialCallback { serial_svc: SVC, buffer_size: 128 }
        ]
    );
    let change = p.set_event_callback(64, counted_data_reg(&second, 2)).unwrap();
    assert_eq!(first.get(), 0);
    let released = change.released.expect("first registration comes back");
    assert_eq!((released.callback)(0), 1);
    drop(released);
    assert_eq!(first.get(), 1);
    assert_eq!(second.get(), 0);
    assert_eq!((p.event_callback().unwrap().callback)(0), 2);
    drop(p.close());
    assert_eq!(first.get(), 1);
    assert_eq!(second.get(), 1);
}

#[test]
fn serial_callback_needs_running_profile() {
    let count = Rc::new(Cell::new(0));
    let mut p: SerialProfile<DataReg> = SerialProfile::new(0, SVC);
    assert_eq!(p.set_event_callback(128, counted_data_reg(&count, 1)).err(), Some(ProfileError::NotRunning));
    assert_eq!(count.get(), 1);
    assert!(p.event_callback().is_none());
    let mut q: SerialProfile<DataReg> = SerialProfile::new(BASE, 0);
    assert_eq!(q.set_event_callback(128, counted_data_reg(&count, 1)).err(), Some(ProfileError::NoSerialService));
    assert_eq!(count.get(), 2);
}

#[test]
fn serial_drop_callback_twice() {
    let count = Rc::new(Cell::new(0));
    let mut p: SerialProfile<DataReg> = SerialProfile::new(BASE, SVC);
    let _ = p.set_event_callback(128, counted_data_reg(&count, 1)).unwrap();
    let first = p.drop_event_callback();
    assert!(first.released.is_some());
    drop(first);
    assert_eq!(count.get(), 1);
    let second = p.drop_event_callback();
    assert!(second.released.is_none());
    assert_eq!(second.actions, vec![Action::ClearSerialCallback { serial_svc: SVC }, Action::ReleaseRegistration]);
    assert_eq!(count.get(), 1);
    assert_eq!(p.as_ptr(), BASE);
    assert_eq!(p.serial_service(), SVC);
}

#[test]
fn serial_drop_without_service_only_releases() {
    let mut p: SerialProfile<DataReg> = SerialProfile::new(0, 0);
    assert_eq!(p.drop_event_callback().actions, vec![Action::ReleaseRegistration]);
}

#[test]
fn status_callback_replacement_releases_first_once() {
    let first = Rc::new(Cell::new(0));
    let second = Rc::new(Cell::new(0));
    let mut bt: BluetoothApp<StatusReg> = BluetoothApp::open(RECORD);
    let change = bt.set_status_change_callback(counted_status_reg(&first)).unwrap();
    assert!(change.released.is_none());
    assert_eq!(
        change.actions,
        vec![
            Action::ClearStatusCallback { record: RECORD },
            Action::ReleaseRegistration,
            Action::InstallStatusCallback { record: RECORD }
        ]
    );
    let change = bt.set_status_change_callback(counted_status_reg(&second)).unwrap();
    assert!(change.released.is_some());
    drop(change);
    assert_eq!(first.get(), 1);
    assert_eq!(second.get(), 0);
    let closed = bt.close();
    assert_eq!(
        closed.actions,
        vec![
            Action::ClearStatusCallback { record: RECORD },
            Action::ReleaseRegistration,
            Action::Disconnect { record: RECORD },
            Action::Settle { millis: SETTLE_MILLIS },
            Action::RestoreDefaultProfile { record: RECORD },
            Action::Settle { millis: SETTLE_MILLIS }
        ]
    );
    drop(closed);
    assert_eq!(first.get(), 1);
    assert_eq!(second.get(), 1);
}

#[test]
fn status_callback_needs_record() {
    let count = Rc::new(Cell::new(0));
    let mut bt: BluetoothApp<StatusReg> = BluetoothApp::open(0);
    assert_eq!(bt.set_status_change_callback(counted_status_reg(&count)).err(), Some(BtError::RecordUnavailable));
    assert!(bt.event_callback().is_none());
    assert_eq!(count.get(), 1);
}

#[test]
fn status_drop_callback_twice() {
    let count = Rc::new(Cell::new(0));
    let mut bt: BluetoothApp<StatusReg> = BluetoothApp::open(RECORD);
    let _ = bt.set_status_change_callback(counted_status_reg(&count)).unwrap();
    drop(bt.drop_event_callback());
    assert_eq!(count.get(), 1);
    let again = bt.drop_event_callback();
    assert!(again.released.is_none());
    assert_eq!(count.get(), 1);
}

#[test]
fn simple_host_steps() {
    let bt: BluetoothApp<StatusReg> = BluetoothApp::open(RECORD);
    assert_eq!(bt.as_ptr(), RECORD);
    assert_eq!(bt.disconnect(), vec![Action::Disconnect { record: RECORD }, Action::Settle { millis: 200 }]);
    assert_eq!(bt.start_advertising(), Action::StartAdvertising);
    assert_eq!(bt.stop_advertising(), Action::StopAdvertising);
    assert_eq!(bt.forget_bonded_devices(), Action::ForgetBondedDevices { record: RECORD });
    assert_eq!(setup_profile(RECORD, params()), Action::StartProfile { record: RECORD, params: params() });
}

#[test]
fn profile_start_state_machine() {
    let mut bt: BluetoothApp<StatusReg> = BluetoothApp::open(RECORD);
    assert_eq!(bt.profile_started::<DataReg>(BASE, SVC).err(), Some(BtError::NotStarting));
    assert_eq!(bt.serial_profile_start(params()), Ok(Action::StartProfile { record: RECORD, params: params() }));
    assert_eq!(bt.profile_state(), ProfileState::Starting);
    assert_eq!(bt.serial_profile_start(params()), Err(BtError::ProfileActive));
    assert_eq!(bt.profile_started::<DataReg>(0, 0).err(), Some(BtError::ProfileStartFailed));
    assert_eq!(bt.profile_state(), ProfileState::Stopped);
    assert!(bt.serial_profile_start(params()).is_ok());
    let p = bt.profile_started::<DataReg>(BASE, SVC).unwrap();
    assert_eq!(p.as_ptr(), BASE);
    assert_eq!(bt.profile_state(), ProfileState::Running);
    assert_eq!(bt.serial_profile_start(params()), Err(BtError::ProfileActive));
    let mut none: BluetoothApp<StatusReg> = BluetoothApp::open(0);
    assert_eq!(none.serial_profile_start(params()), Err(BtError::RecordUnavailable));
}

#[test]
fn stop_guard() {
    let own = 0x0800_1000;
    let record = start_profile(own, 11, 22, 33);
    assert_eq!(record.base, ProfileBase { config: own });
    assert_eq!(stop_profile(None, own), StopDecision::SkipNull);
    assert_eq!(stop_profile(Some(ProfileBase { config: own + 8 }), own), StopDecision::SkipForeign);
    assert_eq!(stop_profile(Some(record.base), own), StopDecision::TearDown);
    assert_eq!(
        teardown_actions(&record),
        vec![
            Action::StopSerialService { serial_svc: 33 },
            Action::StopBatteryService { battery_svc: 22 },
            Action::StopDevInfoService { dev_info_svc: 11 },
            Action::ReleaseProfileRecord
        ]
    );
}

#[test]
fn end_to_end_session() {
    let mut bt: BluetoothApp<StatusReg> = BluetoothApp::open(RECORD);
    let start = bt.serial_profile_start(params()).unwrap();
    let Action::StartProfile { params: handed, .. } = start else { panic!("expected a start step") };
    let host = HostIdentity { factory_mac: [0x80, 0xE1, 0x26, 0x11, 0x22, 0x33], name_prefix: b'F', hardware_color: 0 };
    let mut config = base_gap_config();
    get_gap_config(&mut config, &handed, &host, ServiceUuidPolicy::Override);
    assert_eq!(config.mac_address, [0x81, 0xE1, 0x27, 0x11, 0x22, 0x33]);
    assert_eq!(config.appearance_char, 0x0040);
    assert_eq!(config.adv_service.service_uuid_16, 0x110A);
    let mut profile = bt.profile_started::<DataReg>(BASE, SVC).unwrap();
    assert!(profile.drop_event_callback().released.is_none());

    let seen: Rc<RefCell<Vec<u8>>> = Rc::new(RefCell::new(Vec::new()));
    let log = seen.clone();
    const CONNECTED: u8 = 2;
    let change = bt
        .set_status_change_callback(CallbackWrapper::new(Box::new(move |status: u8| log.borrow_mut().push(status))))
        .unwrap();
    assert!(change.released.is_none());
    (bt.event_callback().unwrap().callback)(CONNECTED);
    assert_eq!(*seen.borrow(), vec![CONNECTED]);

    let restored = profile.restore(&mut bt);
    assert!(restored.released.is_none());
    assert_eq!(
        restored.actions,
        vec![
            Action::ClearSerialCallback { serial_svc: SVC },
            Action::ReleaseRegistration,
            Action::Disconnect { record: RECORD },
            Action::Settle { millis: SETTLE_MILLIS },
            Action::RestoreDefaultProfile { record: RECORD },
            Action::Settle { millis: SETTLE_MILLIS }
        ]
    );
    assert_eq!(bt.profile_state(), ProfileState::Stopped);
    assert_eq!(seen.borrow().len(), 1);
}
