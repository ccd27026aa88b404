//! The strips' command protocol: device types and their configuration, the
//! nine-byte command frames, and the decisions of the command dispatcher.
//!
//! Sending a frame over Bluetooth happens outside the library; every
//! function here computes what to send.
use crate::visual::AudioColor;
use vstd::prelude::*;
use vstd::string::StringSliceAdditionalSpecFns;

verus! {

/// A command frame as the strips take it.
pub type Frame = [u8; 9];

/// Supported device types for LED control
#[derive(Debug, Clone, Copy, PartialEq, Eq, Structural)]
pub enum DeviceType {
    /// ELK-BLE device type
    ElkBle,
    /// LEDBLE device type
    LedBle,
    /// MELK device type
    Melk,
    /// ELK-BULB device type
    ElkBulb,
    /// ELK-LAMPL device type
    ElkLampl,
    /// Unknown device type
    Unknown,
}

/// Configuration for different device types
#[derive(Debug, Clone, Copy, PartialEq, Eq)]
pub struct DeviceConfig {
    /// UUID of the write characteristic, as a 128-bit number
    pub write_uuid: u128,
    /// UUID of the read characteristic, as a 128-bit number
    pub read_uuid: u128,
    /// Command to turn the device on
    pub turn_on_cmd: Frame,
    /// Command to turn the device off
    pub turn_off_cmd: Frame,
    /// Minimum supported color temperature in Kelvin
    pub min_color_temp_k: u32,
    /// Maximum supported color temperature in Kelvin
    pub max_color_temp_k: u32,
    /// Command processing time in milliseconds
    pub command_delay: u64,
}

/// The frame `7e 00 a b c d e f ef`.
pub open spec fn frame_of(a: u8, b: u8, c: u8, d: u8, e: u8, f: u8) -> Seq<u8> {
    seq![0x7eu8, 0x00u8, a, b, c, d, e, f, 0xefu8]
}

fn frame(a: u8, b: u8, c: u8, d: u8, e: u8, f: u8) -> (r: Frame)
    ensures
        r@ == frame_of(a, b, c, d, e, f),
{
    let r: Frame = [0x7e, 0x00, a, b, c, d, e, f, 0xef];
    proof {
        assert(r@ =~= frame_of(a, b, c, d, e, f));
    }
    r
}

/// Bytes of a name that starts with `p`.
pub open spec fn has_prefix(s: Seq<u8>, p: Seq<u8>) -> bool {
    p.len() <= s.len() && s.subrange(0, p.len() as int) == p
}

fn starts_with(s: &[u8], p: &[u8]) -> (r: bool)
    ensures
        r == has_prefix(s@, p@),
{
    if p.len() > s.len() {
        return false;
    }
    let mut i: usize = 0;
    while i < p.len()
        invariant
            p@.len() <= s@.len(),
            i <= p@.len(),
            forall|k: int| 0 <= k < i ==> s@[k] == p@[k],
        decreases p@.len() - i,
    {
        if s[i] != p[i] {
            proof {
                assert(s@.subrange(0, p@.len() as int)[i as int] != p@[i as int]);
            }
            return false;
        }
        i = i + 1;
    }
    proof {
        assert(s@.subrange(0, p@.len() as int) =~= p@);
    }
    true
}

pub open spec fn elk_ble() -> Seq<u8> {
    seq![0x45u8, 0x4cu8, 0x4bu8, 0x2du8, 0x42u8, 0x4cu8, 0x45u8]
}

pub open spec fn ledble() -> Seq<u8> {
    seq![0x4cu8, 0x45u8, 0x44u8, 0x42u8, 0x4cu8, 0x45u8]
}

pub open spec fn melk() -> Seq<u8> {
    seq![0x4du8, 0x45u8, 0x4cu8, 0x4bu8]
}

pub open spec fn elk_bulb() -> Seq<u8> {
    seq![0x45u8, 0x4cu8, 0x4bu8, 0x2du8, 0x42u8, 0x55u8, 0x4cu8, 0x42u8]
}

pub open spec fn elk_lampl() -> Seq<u8> {
    seq![0x45u8, 0x4cu8, 0x4bu8, 0x2du8, 0x4cu8, 0x41u8, 0x4du8, 0x50u8, 0x4cu8]
}

/// The device type that an advertised name announces, by its prefix:
/// "ELK-BLE", "LEDBLE", "MELK", "ELK-BULB", "ELK-LAMPL", in that order.
pub open spec fn type_of_name(name: Seq<u8>) -> DeviceType {
    if has_prefix(name, elk_ble()) {
        DeviceType::ElkBle
    } else if has_prefix(name, ledble()) {
        DeviceType::LedBle
    } else if has_prefix(name, melk()) {
        DeviceType::Melk
    } else if has_prefix(name, elk_bulb()) {
        DeviceType::ElkBulb
    } else if has_prefix(name, elk_lampl()) {
        DeviceType::ElkLampl
    } else {
        DeviceType::Unknown
    }
}

/// The UUID `0000fff3-0000-1000-8000-00805f9b34fb`.
pub const UUID_FFF3: u128 = 0x0000fff3_0000_1000_8000_00805f9b34fb;

/// The UUID `0000fff4-0000-1000-8000-00805f9b34fb`.
pub const UUID_FFF4: u128 = 0x0000fff4_0000_1000_8000_00805f9b34fb;

/// The UUID `0000ffe1-0000-1000-8000-00805f9b34fb`.
pub const UUID_FFE1: u128 = 0x0000ffe1_0000_1000_8000_00805f9b34fb;

/// The UUID `0000ffe2-0000-1000-8000-00805f9b34fb`.
pub const UUID_FFE2: u128 = 0x0000ffe2_0000_1000_8000_00805f9b34fb;

impl DeviceType {
    /// The device type that an advertised name announces.
    pub fn from_name(name: &str) -> (r: DeviceType)
        ensures
            r == type_of_name(name.spec_bytes()),
    {
        let b = name.as_bytes();
        let elk_ble_prefix: [u8; 7] = [0x45, 0x4c, 0x4b, 0x2d, 0x42, 0x4c, 0x45];
        let ledble_prefix: [u8; 6] = [0x4c, 0x45, 0x44, 0x42, 0x4c, 0x45];
        let melk_prefix: [u8; 4] = [0x4d, 0x45, 0x4c, 0x4b];
        let elk_bulb_prefix: [u8; 8] = [0x45, 0x4c, 0x4b, 0x2d, 0x42, 0x55, 0x4c, 0x42];
        let elk_lampl_prefix: [u8; 9] = [0x45, 0x4c, 0x4b, 0x2d, 0x4c, 0x41, 0x4d, 0x50, 0x4c];
        proof {
            assert(elk_ble_prefix@ =~= elk_ble());
            assert(ledble_prefix@ =~= ledble());
            assert(melk_prefix@ =~= melk());
            assert(elk_bulb_prefix@ =~= elk_bulb());
            assert(elk_lampl_prefix@ =~= elk_lampl());
        }
        if starts_with(b, elk_ble_prefix.as_slice()) {
            DeviceType::ElkBle
        } else if starts_with(b, ledble_prefix.as_slice()) {
            DeviceType::LedBle
        } else if starts_with(b, melk_prefix.as_slice()) {
            DeviceType::Melk
        } else if starts_with(b, elk_bulb_prefix.as_slice()) {
            DeviceType::ElkBulb
        } else if starts_with(b, elk_lampl_prefix.as_slice()) {
            DeviceType::ElkLampl
        } else {
            DeviceType::Unknown
        }
    }

    /// Whether the device keeps a clock that is set on connection.
    pub fn syncs_time(&self) -> (r: bool)
        ensures
            r == (*self == DeviceType::ElkBle || *self == DeviceType::ElkBulb || *self
                == DeviceType::ElkLampl),
    {
        match self {
            DeviceType::ElkBle | DeviceType::ElkBulb | DeviceType::ElkLampl => true,
            _ => false,
        }
    }

    /// The configuration of this device type.
    pub fn config(&self) -> (r: DeviceConfig)
        ensures
            r.write_uuid == if *self == DeviceType::LedBle {
                UUID_FFE1
            } else {
                UUID_FFF3
            },
            r.read_uuid == if *self == DeviceType::LedBle {
                UUID_FFE2
            } else {
                UUID_FFF4
            },
            r.turn_on_cmd@ == if *self == DeviceType::ElkBle {
                frame_of(0x04, 0xf0, 0x00, 0x01, 0xff, 0x00)
            } else {
                frame_of(0x04, 0x01, 0x00, 0x00, 0x00, 0x00)
            },
            r.turn_off_cmd@ == frame_of(0x04, 0x00, 0x00, 0x00, 0xff, 0x00),
            r.min_color_temp_k == 2700,
            r.max_color_temp_k == 6500,
            r.command_delay == 15,
    {
        let led_ble = match self {
            DeviceType::LedBle => true,
            _ => false,
        };
        let elk_ble = match self {
            DeviceType::ElkBle => true,
            _ => false,
        };
        DeviceConfig {
            write_uuid: if led_ble {
                UUID_FFE1
            } else {
                UUID_FFF3
            },
            read_uuid: if led_ble {
                UUID_FFE2
            } else {
                UUID_FFF4
            },
            turn_on_cmd: if elk_ble {
                frame(0x04, 0xf0, 0x00, 0x01, 0xff, 0x00)
            } else {
                frame(0x04, 0x01, 0x00, 0x00, 0x00, 0x00)
            },
            turn_off_cmd: frame(0x04, 0x00, 0x00, 0x00, 0xff, 0x00),
            min_color_temp_k: 2700,
            max_color_temp_k: 6500,
            command_delay: 15,
        }
    }
}


pub open spec fn display_name(t: DeviceType) -> Seq<char> {
    match t {
        DeviceType::ElkBle => "ELK-BLE"@,
        DeviceType::LedBle => "LEDBLE"@,
        DeviceType::Melk => "MELK"@,
        DeviceType::ElkBulb => "ELK-BULB"@,
        DeviceType::ElkLampl => "ELK-LAMPL"@,
        DeviceType::Unknown => "Unknown"@,
    }
}

impl DeviceType {
    /// Display name of the device type.
    pub fn name(&self) -> (r: &'static str)
        ensures
            r@ == display_name(*self),
    {
        match self {
            DeviceType::ElkBle => "ELK-BLE",
            DeviceType::LedBle => "LEDBLE",
            DeviceType::Melk => "MELK",
            DeviceType::ElkBulb => "ELK-BULB",
            DeviceType::ElkLampl => "ELK-LAMPL",
            DeviceType::Unknown => "Unknown",
        }
    }
}

/// Frame that sets a static color.
pub fn color_frame(red: u8, green: u8, blue: u8) -> (r: Frame)
    ensures
        r@ == frame_of(0x05, 0x03, red, green, blue, 0x00),
{
    frame(0x05, 0x03, red, green, blue, 0x00)
}

pub open spec fn disable_effect_frame_value() -> Frame {
    [0x7e, 0x00, 0x05, 0x01, 0x00, 0x00, 0x00, 0x00, 0xef]
}

/// Frame that ends an active effect, sent before a static color or a color
/// temperature when an effect is on.
pub fn disable_effect_frame() -> (r: Frame)
    ensures
        r@ == frame_of(0x05, 0x01, 0x00, 0x00, 0x00, 0x00),
        r == disable_effect_frame_value(),
{
    frame(0x05, 0x01, 0x00, 0x00, 0x00, 0x00)
}

pub open spec fn min_u8(a: u8, b: u8) -> u8 {
    if a < b {
        a
    } else {
        b
    }
}

/// Frame that sets the brightness, limited to 100 percent.
pub fn brightness_frame(value: u8) -> (r: Frame)
    ensures
        r@ == frame_of(0x01, min_u8(value, 100), 0x00, 0x00, 0x00, 0x00),
{
    let v = if value < 100 {
        value
    } else {
        100
    };
    frame(0x01, v, 0x00, 0x00, 0x00, 0x00)
}

/// Frame that starts a built-in effect.
pub fn effect_frame(code: u8) -> (r: Frame)
    ensures
        r@ == frame_of(0x03, code, 0x03, 0x00, 0x00, 0x00),
{
    frame(0x03, code, 0x03, 0x00, 0x00, 0x00)
}

/// Frame that sets the effect speed, limited to 100.
pub fn effect_speed_frame(value: u8) -> (r: Frame)
    ensures
        r@ == frame_of(0x02, min_u8(value, 100), 0x00, 0x00, 0x00, 0x00),
{
    let v = if value < 100 {
        value
    } else {
        100
    };
    frame(0x02, v, 0x00, 0x00, 0x00, 0x00)
}

/// The frames that set a static color or a color temperature: `setting`,
/// preceded by the frame that ends the active effect when there is one.
pub fn static_frames(effect_active: bool, setting: Frame) -> (r: Vec<Frame>)
    ensures
        r@ == if effect_active {
            seq![disable_effect_frame_value(), setting]
        } else {
            seq![setting]
        },
{
    let mut r: Vec<Frame> = Vec::new();
    if effect_active {
        r.push(disable_effect_frame());
    }
    r.push(setting);
    proof {
        if effect_active {
            assert(r@ =~= seq![disable_effect_frame_value(), setting]);
        } else {
            assert(r@ =~= seq![setting]);
        }
    }
    r
}

/// A color temperature clamped into the device's range.
pub open spec fn clamped_temp(c: DeviceConfig, kelvin: u32) -> u32 {
    if kelvin < c.min_color_temp_k {
        c.min_color_temp_k
    } else if kelvin > c.max_color_temp_k {
        c.max_color_temp_k
    } else {
        kelvin
    }
}

/// Position of a temperature in the device's range, in percent.
pub open spec fn warm_percent(c: DeviceConfig, temp: u32) -> int {
    (temp - c.min_color_temp_k) * 100 / (c.max_color_temp_k - c.min_color_temp_k)
}

/// The temperature actually set for `kelvin`, and the frame that sets it:
/// the warm share is the temperature's position in the range in percent,
/// the cold share the rest of 100.
pub fn color_temp_setting(config: &DeviceConfig, kelvin: u32) -> (r: (u32, Frame))
    requires
        config.min_color_temp_k < config.max_color_temp_k,
    ensures
        r.0 == clamped_temp(*config, kelvin),
        r.1@ == frame_of(
            0x05,
            0x02,
            warm_percent(*config, r.0) as u8,
            (100 - warm_percent(*config, r.0)) as u8,
            0x00,
            0x00,
        ),
        0 <= warm_percent(*config, r.0) <= 100,
{
    let lo = config.min_color_temp_k;
    let hi = config.max_color_temp_k;
    let temp = if kelvin < lo {
        lo
    } else if kelvin > hi {
        hi
    } else {
        kelvin
    };
    let span = (hi - lo) as u64;
    let offset = (temp - lo) as u64;
    proof {
        vstd::arithmetic::div_mod::lemma_div_multiples_vanish(100, span as int);
        vstd::arithmetic::div_mod::lemma_div_is_ordered(offset * 100, span * 100, span as int);
    }
    let warm = (offset * 100 / span) as u8;
    (temp, frame(0x05, 0x02, warm, 100 - warm, 0x00, 0x00))
}

/// Frame that schedules the device to turn on (`off` false) or off (`off`
/// true) at `hours:minutes` on the days of the mask, hours limited to 23 and
/// minutes to 59; the mask's high bit marks the schedule enabled.
pub fn schedule_frame(days: u8, hours: u8, minutes: u8, enabled: bool, off: bool) -> (r: Frame)
    ensures
        r@ == frame_of(
            0x82,
            min_u8(hours, 23),
            min_u8(minutes, 59),
            0x00,
            if off {
                1u8
            } else {
                0u8
            },
            if enabled {
                days | 0x80
            } else {
                days
            },
        ),
{
    let h = if hours < 23 {
        hours
    } else {
        23
    };
    let m = if minutes < 59 {
        minutes
    } else {
        59
    };
    let value = if enabled {
        days | 0x80
    } else {
        days
    };
    frame(0x82, h, m, 0x00, if off { 1 } else { 0 }, value)
}

/// Frame that sets the device clock; hour limited to 23, minute and second
/// to 59, day of the week (1 = Monday) clamped into 1..=7.
pub fn time_frame(hour: u8, minute: u8, second: u8, day_of_week: u8) -> (r: Frame)
    ensures
        r@ == frame_of(
            0x83,
            min_u8(hour, 23),
            min_u8(minute, 59),
            min_u8(second, 59),
            if day_of_week < 1 {
                1u8
            } else {
                min_u8(day_of_week, 7)
            },
            0x00,
        ),
{
    let h = if hour < 23 {
        hour
    } else {
        23
    };
    let m = if minute < 59 {
        minute
    } else {
        59
    };
    let s = if second < 59 {
        second
    } else {
        59
    };
    let d = if day_of_week < 1 {
        1
    } else if day_of_week < 7 {
        day_of_week
    } else {
        7
    };
    frame(0x83, h, m, s, d, 0x00)
}

/// Frame of an arbitrary command.
pub fn generic_frame(id: u8, sub_id: u8, arg1: u8, arg2: u8, arg3: u8) -> (r: Frame)
    ensures
        r@ == frame_of(id, sub_id, arg1, arg2, arg3, 0x00),
{
    frame(id, sub_id, arg1, arg2, arg3, 0x00)
}

/// What applying a decision to the fixture takes: power on first if it is
/// off, then the effect or else the static color, then the brightness.
#[derive(Debug, Clone, Copy, PartialEq, Eq)]
pub struct ApplyPlan {
    pub power_on: bool,
    pub effect: Option<u8>,
    pub color: Option<(u8, u8, u8)>,
    pub brightness: u8,
}

/// The commands that apply `decision` to a fixture whose power state is
/// `is_on`: one effect or one color, and one brightness.
pub fn plan_apply(decision: &AudioColor, is_on: bool) -> (r: ApplyPlan)
    ensures
        r.power_on == !is_on,
        r.effect == decision.effect,
        r.color == (if decision.effect is Some {
            None
        } else {
            Some((decision.r, decision.g, decision.b))
        }),
        r.brightness == decision.brightness,
{
    let color = match decision.effect {
        Some(_) => None,
        None => Some((decision.r, decision.g, decision.b)),
    };
    ApplyPlan { power_on: !is_on, effect: decision.effect, color, brightness: decision.brightness }
}

/// Attempts of one command before the dispatcher gives up.
pub const MAX_ATTEMPTS: u8 = 3;

/// Wait before retrying a failed write, in ms.
pub const RETRY_DELAY_MS: u64 = 300;

/// What the dispatcher does after a failed write.
#[derive(Debug, Clone, Copy, PartialEq, Eq)]
pub enum RetryAction {
    /// Wait this many ms, then write again.
    Retry(u64),
    /// Report the failure.
    GiveUp,
}

/// After the `failed`-th failed attempt of a command: retry after a pause
/// while fewer than three attempts have failed, else give up.
pub fn after_failure(failed: u8) -> (r: RetryAction)
    ensures
        r == (if failed < MAX_ATTEMPTS {
            RetryAction::Retry(RETRY_DELAY_MS)
        } else {
            RetryAction::GiveUp
        }),
{
    if failed < MAX_ATTEMPTS {
        RetryAction::Retry(RETRY_DELAY_MS)
    } else {
        RetryAction::GiveUp
    }
}

/// How long to wait before the next command so that commands are at least
/// `min_delay_ms` apart, given the time since the last one.
pub fn rate_limit_wait(elapsed_ms: u64, min_delay_ms: u64) -> (r: u64)
    ensures
        r == (if elapsed_ms < min_delay_ms {
            min_delay_ms - elapsed_ms
        } else {
            0
        }),
{
    if elapsed_ms < min_delay_ms {
        min_delay_ms - elapsed_ms
    } else {
        0
    }
}

} // verus!
