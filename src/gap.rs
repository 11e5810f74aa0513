use vstd::prelude::*;
use vstd::string::StrSliceExecFns;

verus! {

/// Size of the advertising-name buffer, prefix byte and terminator included.
pub const ADV_NAME_LEN: usize = 18;

/// Number of characters of the advertised name that fit between the prefix
/// byte and the terminator.
pub const ADV_NAME_CAPACITY: usize = 16;

/// Service-UUID type discriminator meaning "16-bit UUID".
pub const UUID_TYPE_16: u8 = 0x01;

/// Service class advertised when no override is given (serial port).
pub const DEFAULT_SERVICE_UUID: u16 = 0x110A;

/// Appearance code advertised when no override is given.
pub const DEFAULT_APPEARANCE: u16 = 0x0040;

/// Connection-interval bounds requested by the profile.
pub const CONN_INT_MIN: u16 = 0x06;

pub const CONN_INT_MAX: u16 = 0x24;

/// Per-activation parameters of the serial profile.
#[derive(Clone, Copy, Debug, PartialEq, Eq)]
pub struct SerialProfileParams {
    /// Advertised name; characters past the buffer's capacity are dropped.
    pub adv_name: &'static str,
    /// Appearance code overriding the default, if any.
    pub appearance_char: Option<u16>,
    /// 16-bit service UUID overriding the default, if any.
    pub service_uuid: Option<u16>,
    /// Seed folded into the low two bytes of the advertised MAC.
    pub mac_xor: u16,
}

/// Base identity queried from the host before a derivation.
#[derive(Clone, Copy, Debug)]
pub struct HostIdentity {
    /// Factory BLE MAC address.
    pub factory_mac: [u8; 6],
    /// First byte of the factory device name.
    pub name_prefix: u8,
    /// Hardware color code of the device.
    pub hardware_color: u8,
}

/// How the advertised 16-bit service UUID is chosen.
#[derive(Clone, Copy, Debug, PartialEq, Eq, Structural)]
pub enum ServiceUuidPolicy {
    /// The caller's override, else the default.
    Override,
    /// The caller's override (else the default), with the hardware color
    /// folded in by bitwise OR.
    HardwareColor,
}

/// Pairing method requested from the peer.
#[derive(Clone, Copy, Debug, PartialEq, Eq, Structural)]
pub enum PairingMethod {
    NoPairing,
    PinCodeShow,
    PinCodeVerifyYesNo,
}

/// Advertised service field.
#[derive(Clone, Copy, Debug)]
pub struct AdvService {
    pub uuid_type: u8,
    pub service_uuid_16: u16,
    pub service_uuid_128: [u8; 16],
}

/// Connection parameters requested from the central.
#[derive(Clone, Copy, Debug, PartialEq, Eq, Structural)]
pub struct ConnectionParams {
    pub conn_int_min: u16,
    pub conn_int_max: u16,
    pub slave_latency: u16,
    pub supervisor_timeout: u16,
}

/// Advertising configuration handed to the radio stack.
#[derive(Clone, Copy, Debug)]
pub struct GapConfig {
    pub adv_name: [u8; 18],
    pub adv_service: AdvService,
    pub appearance_char: u16,
    pub mfg_data: [u8; 23],
    pub mfg_data_len: u8,
    pub bonding_mode: bool,
    pub pairing_method: PairingMethod,
    pub mac_address: [u8; 6],
    pub conn_param: ConnectionParams,
}

/// The mathematical content of a `GapConfig`.
pub ghost struct GapConfigModel {
    pub adv_name: Seq<u8>,
    pub uuid_type: u8,
    pub service_uuid_16: u16,
    pub service_uuid_128: Seq<u8>,
    pub appearance_char: u16,
    pub mfg_data: Seq<u8>,
    pub mfg_data_len: u8,
    pub bonding_mode: bool,
    pub pairing_method: PairingMethod,
    pub mac_address: Seq<u8>,
    pub conn_param: ConnectionParams,
}

impl View for GapConfig {
    type V = GapConfigModel;

    open spec fn view(&self) -> GapConfigModel {
        GapConfigModel {
            adv_name: self.adv_name@,
            uuid_type: self.adv_service.uuid_type,
            service_uuid_16: self.adv_service.service_uuid_16,
            service_uuid_128: self.adv_service.service_uuid_128@,
            appearance_char: self.appearance_char,
            mfg_data: self.mfg_data@,
            mfg_data_len: self.mfg_data_len,
            bonding_mode: self.bonding_mode,
            pairing_method: self.pairing_method,
            mac_address: self.mac_address@,
            conn_param: self.conn_param,
        }
    }
}

/// The byte stored for a character of the advertised name: its low eight bits.
pub open spec fn name_byte(c: char) -> u8 {
    (c as u32 % 256) as u8
}

/// The advertising-name buffer: the factory prefix byte, then at most
/// `ADV_NAME_CAPACITY` characters of `name`, zero-filled, the last byte zero.
pub open spec fn adv_name_of(prefix: u8, name: Seq<char>) -> Seq<u8> {
    Seq::new(
        ADV_NAME_LEN as nat,
        |i: int|
            if i == 0 {
                prefix
            } else if i <= ADV_NAME_CAPACITY && i - 1 < name.len() {
                name_byte(name[i - 1])
            } else {
                0u8
            },
    )
}

/// The advertised MAC: byte 2 of the factory MAC plus one (mod 256), bytes 0
/// and 1 XORed with the low and high byte of `seed`, the rest unchanged.
pub open spec fn mac_of(factory: Seq<u8>, seed: u16) -> Seq<u8> {
    Seq::new(
        6,
        |i: int|
            if i == 0 {
                factory[0] ^ (seed % 256) as u8
            } else if i == 1 {
                factory[1] ^ (seed / 256) as u8
            } else if i == 2 {
                ((factory[2] + 1) % 256) as u8
            } else {
                factory[i]
            },
    )
}

/// The advertised 16-bit service UUID under `policy`.
pub open spec fn service_uuid_of(
    params: SerialProfileParams,
    color: u8,
    policy: ServiceUuidPolicy,
) -> u16 {
    let chosen = match params.service_uuid {
        Some(u) => u,
        None => DEFAULT_SERVICE_UUID,
    };
    match policy {
        ServiceUuidPolicy::Override => chosen,
        ServiceUuidPolicy::HardwareColor => chosen | (color as u16),
    }
}

/// The fixed part of every configuration, before any derivation.
pub open spec fn base_config_model() -> GapConfigModel {
    GapConfigModel {
        adv_name: Seq::new(ADV_NAME_LEN as nat, |i: int| 0u8),
        uuid_type: UUID_TYPE_16,
        service_uuid_16: DEFAULT_SERVICE_UUID,
        service_uuid_128: Seq::new(16, |i: int| 0u8),
        appearance_char: DEFAULT_APPEARANCE,
        mfg_data: Seq::new(23, |i: int| 0u8),
        mfg_data_len: 0,
        bonding_mode: true,
        pairing_method: PairingMethod::PinCodeVerifyYesNo,
        mac_address: Seq::new(6, |i: int| 0u8),
        conn_param: ConnectionParams {
            conn_int_min: CONN_INT_MIN,
            conn_int_max: CONN_INT_MAX,
            slave_latency: 0,
            supervisor_timeout: 0,
        },
    }
}

/// The configuration derived for one activation.
pub open spec fn gap_config_of(
    params: SerialProfileParams,
    host: HostIdentity,
    policy: ServiceUuidPolicy,
) -> GapConfigModel {
    GapConfigModel {
        adv_name: adv_name_of(host.name_prefix, params.adv_name@),
        uuid_type: UUID_TYPE_16,
        service_uuid_16: service_uuid_of(params, host.hardware_color, policy),
        appearance_char: match params.appearance_char {
            Some(a) => a,
            None => DEFAULT_APPEARANCE,
        },
        mac_address: mac_of(host.factory_mac@, params.mac_xor),
        ..base_config_model()
    }
}

/// The base template that every derivation starts from.
pub fn base_gap_config() -> (r: GapConfig)
    ensures
        r@ == base_config_model(),
{
    let r = GapConfig {
        adv_name: [0u8; 18],
        adv_service: AdvService {
            uuid_type: UUID_TYPE_16,
            service_uuid_16: DEFAULT_SERVICE_UUID,
            service_uuid_128: [0u8; 16],
        },
        appearance_char: DEFAULT_APPEARANCE,
        mfg_data: [0u8; 23],
        mfg_data_len: 0,
        bonding_mode: true,
        pairing_method: PairingMethod::PinCodeVerifyYesNo,
        mac_address: [0u8; 6],
        conn_param: ConnectionParams {
            conn_int_min: CONN_INT_MIN,
            conn_int_max: CONN_INT_MAX,
            slave_latency: 0,
            supervisor_timeout: 0,
        },
    };
    assert(r.adv_name@ =~= base_config_model().adv_name);
    assert(r.adv_service.service_uuid_128@ =~= base_config_model().service_uuid_128);
    assert(r.mfg_data@ =~= base_config_model().mfg_data);
    assert(r.mac_address@ =~= base_config_model().mac_address);
    r
}

/// The advertised MAC derived from the factory MAC and a seed.
pub fn perturb_mac(factory: [u8; 6], seed: u16) -> (r: [u8; 6])
    ensures
        r@ == mac_of(factory@, seed),
{
    let mut mac = factory;
    mac[2] = mac[2].wrapping_add(1);
    mac[0] = mac[0] ^ (seed % 256) as u8;
    mac[1] = mac[1] ^ (seed / 256) as u8;
    assert(mac@ =~= mac_of(factory@, seed));
    mac
}

/// The advertising-name buffer for a factory prefix byte and a name.
pub fn adv_name_buffer(prefix: u8, name: &str) -> (r: [u8; 18])
    ensures
        r@ == adv_name_of(prefix, name@),
{
    let mut buf = [0u8; 18];
    buf[0] = prefix;
    let name_len = name.unicode_len();
    let mut i: usize = 0;
    while i < name_len && i < ADV_NAME_CAPACITY
        invariant
            name_len == name@.len(),
            i <= ADV_NAME_CAPACITY,
            i <= name_len,
            buf@.len() == ADV_NAME_LEN,
            buf@[0] == prefix,
            forall|j: int| 1 <= j <= i ==> buf@[j] == name_byte(name@[j - 1]),
            forall|j: int| i + 1 <= j < ADV_NAME_LEN ==> buf@[j] == 0u8,
        decreases name_len - i,
    {
        let c = name.get_char(i);
        buf[i + 1] = (c as u32 % 256) as u8;
        i = i + 1;
    }
    buf[ADV_NAME_LEN - 1] = 0;
    assert(buf@ =~= adv_name_of(prefix, name@));
    buf
}

/// Derives the advertising configuration of one activation into `target`,
/// whatever `target` held before.
pub fn get_gap_config(
    target: &mut GapConfig,
    params: &SerialProfileParams,
    host: &HostIdentity,
    policy: ServiceUuidPolicy,
)
    ensures
        final(target)@ == gap_config_of(*params, *host, policy),
{
    *target = base_gap_config();
    target.mac_address = perturb_mac(host.factory_mac, params.mac_xor);
    target.adv_name = adv_name_buffer(host.name_prefix, params.adv_name);
    if let Some(appearance) = params.appearance_char {
        target.appearance_char = appearance;
    }
    target.adv_service.uuid_type = UUID_TYPE_16;
    if let Some(service_uuid) = params.service_uuid {
        target.adv_service.service_uuid_16 = service_uuid;
    }
    match policy {
        ServiceUuidPolicy::Override => {},
        ServiceUuidPolicy::HardwareColor => {
            target.adv_service.service_uuid_16 = target.adv_service.service_uuid_16
                | host.hardware_color as u16;
        },
    }
}

/// The derived configuration depends on the activation parameters, the
/// queried host identity and the policy alone: equal inputs give equal
/// configurations, whatever the target held before.
pub proof fn gap_config_deterministic(
    c1: GapConfig,
    c2: GapConfig,
    params: SerialProfileParams,
    host: HostIdentity,
    policy: ServiceUuidPolicy,
)
    requires
        c1@ == gap_config_of(params, host, policy),
        c2@ == gap_config_of(params, host, policy),
    ensures
        c1@ == c2@,
        c1.adv_name == c2.adv_name,
        c1.mac_address == c2.mac_address,
{
    assert(c1.adv_name@ =~= c2.adv_name@);
    assert(c1.mac_address@ =~= c2.mac_address@);
}

/// The advertised MAC differs from the factory MAC exactly in bytes 0 to 2:
/// byte 2 is incremented modulo 256, bytes 0 and 1 are XORed with the low and
/// high byte of the seed.
pub proof fn mac_derivation(factory: [u8; 6], seed: u16)
    ensures
        mac_of(factory@, seed).len() == 6,
        mac_of(factory@, seed)[0] == factory[0] ^ (seed % 256) as u8,
        mac_of(factory@, seed)[1] == factory[1] ^ (seed / 256) as u8,
        mac_of(factory@, seed)[2] == (factory[2] + 1) % 256,
        forall|i: int| 3 <= i < 6 ==> mac_of(factory@, seed)[i] == factory[i],
{
}

/// A name longer than the buffer's capacity is cut to its first
/// `ADV_NAME_CAPACITY` characters; the buffer keeps its size and its last
/// byte is zero whatever the name.
pub proof fn adv_name_truncation(prefix: u8, name: Seq<char>)
    ensures
        adv_name_of(prefix, name).len() == ADV_NAME_LEN,
        adv_name_of(prefix, name)[0] == prefix,
        adv_name_of(prefix, name)[ADV_NAME_LEN - 1] == 0u8,
        forall|i: int|
            0 <= i < ADV_NAME_CAPACITY && i < name.len() ==> adv_name_of(prefix, name)[i + 1]
                == name_byte(name[i]),
        name.len() > ADV_NAME_CAPACITY ==> adv_name_of(prefix, name) == adv_name_of(
            prefix,
            name.subrange(0, ADV_NAME_CAPACITY as int),
        ),
{
    if name.len() > ADV_NAME_CAPACITY {
        assert(adv_name_of(prefix, name) =~= adv_name_of(
            prefix,
            name.subrange(0, ADV_NAME_CAPACITY as int),
        ));
    }
}

} // verus!
