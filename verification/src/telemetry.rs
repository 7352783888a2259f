//! The operator-facing summary of a vehicle heartbeat.

use vstd::prelude::*;
use crate::protocol::HeartbeatData;
use crate::flight_mode::{flight_mode_label, flight_mode_name};

verus! {

/// `MAV_MODE_FLAG_CUSTOM_MODE_ENABLED`.
pub const MAV_MODE_FLAG_CUSTOM_MODE_ENABLED: u8 = 1;
/// `MAV_MODE_FLAG_AUTO_ENABLED`.
pub const MAV_MODE_FLAG_AUTO_ENABLED: u8 = 4;
/// `MAV_MODE_FLAG_GUIDED_ENABLED`.
pub const MAV_MODE_FLAG_GUIDED_ENABLED: u8 = 8;
/// `MAV_MODE_FLAG_STABILIZE_ENABLED`.
pub const MAV_MODE_FLAG_STABILIZE_ENABLED: u8 = 16;
/// `MAV_MODE_FLAG_HIL_ENABLED`.
pub const MAV_MODE_FLAG_HIL_ENABLED: u8 = 32;
/// `MAV_MODE_FLAG_MANUAL_INPUT_ENABLED`.
pub const MAV_MODE_FLAG_MANUAL_INPUT_ENABLED: u8 = 64;
/// `MAV_MODE_FLAG_SAFETY_ARMED`.
pub const MAV_MODE_FLAG_SAFETY_ARMED: u8 = 128;

/// Whether the mode flags `base_mode` contain all bits of `flag`.
pub open spec fn has_flag(base_mode: u8, flag: u8) -> bool {
    base_mode & flag == flag
}

/// Tests the mode flags `base_mode` for `flag`.
pub fn contains_flag(base_mode: u8, flag: u8) -> (r: bool)
    ensures
        r == has_flag(base_mode, flag),
{
    base_mode & flag == flag
}

/// `MAV_STATE_UNINIT`.
pub const MAV_STATE_UNINIT: u8 = 0;
/// `MAV_STATE_BOOT`.
pub const MAV_STATE_BOOT: u8 = 1;
/// `MAV_STATE_CALIBRATING`.
pub const MAV_STATE_CALIBRATING: u8 = 2;
/// `MAV_STATE_STANDBY`.
pub const MAV_STATE_STANDBY: u8 = 3;
/// `MAV_STATE_ACTIVE`.
pub const MAV_STATE_ACTIVE: u8 = 4;
/// `MAV_STATE_CRITICAL`.
pub const MAV_STATE_CRITICAL: u8 = 5;
/// `MAV_STATE_EMERGENCY`.
pub const MAV_STATE_EMERGENCY: u8 = 6;

/// `MAV_TYPE_FIXED_WING`.
pub const MAV_TYPE_FIXED_WING: u8 = 1;
/// `MAV_TYPE_QUADROTOR`.
pub const MAV_TYPE_QUADROTOR: u8 = 2;
/// `MAV_TYPE_COAXIAL`.
pub const MAV_TYPE_COAXIAL: u8 = 3;
/// `MAV_TYPE_GROUND_ROVER`.
pub const MAV_TYPE_GROUND_ROVER: u8 = 10;

/// How a `MAV_TYPE` is shown.
pub open spec fn vehicle_type_name(mavtype: u8) -> Seq<char> {
    if mavtype == 2 {
        "四旋翼"@
    } else if mavtype == 10 {
        "地面车辆"@
    } else if mavtype == 1 {
        "固定翼"@
    } else if mavtype == 3 {
        "共轴直升机"@
    } else {
        "未知类型"@
    }
}

/// How a `MAV_STATE` is shown.
pub open spec fn system_status_name(status: u8) -> Seq<char> {
    if status == 0 {
        "未初始化"@
    } else if status == 1 {
        "启动中"@
    } else if status == 2 {
        "校准中"@
    } else if status == 3 {
        "待机"@
    } else if status == 4 {
        "活动"@
    } else if status == 5 {
        "严重故障"@
    } else if status == 6 {
        "紧急状态"@
    } else {
        "未知状态"@
    }
}

/// The name shown for a `MAV_TYPE`.
pub fn vehicle_type_label(mavtype: u8) -> (r: &'static str)
    ensures
        r@ == vehicle_type_name(mavtype),
{
    if mavtype == 2 {
        "四旋翼"
    } else if mavtype == 10 {
        "地面车辆"
    } else if mavtype == 1 {
        "固定翼"
    } else if mavtype == 3 {
        "共轴直升机"
    } else {
        "未知类型"
    }
}

/// The name shown for a `MAV_STATE`.
pub fn system_status_label(status: u8) -> (r: &'static str)
    ensures
        r@ == system_status_name(status),
{
    if status == 0 {
        "未初始化"
    } else if status == 1 {
        "启动中"
    } else if status == 2 {
        "校准中"
    } else if status == 3 {
        "待机"
    } else if status == 4 {
        "活动"
    } else if status == 5 {
        "严重故障"
    } else if status == 6 {
        "紧急状态"
    } else {
        "未知状态"
    }
}

/// What operators are shown about a heartbeat, besides its raw fields.
pub struct HeartbeatSummary {
    pub flight_mode: &'static str,
    pub vehicle_type: &'static str,
    pub system_status: &'static str,
    /// "解锁" when armed, "加锁" otherwise.
    pub arm_status: &'static str,
    /// "自动" when the auto flag is set, "手动" otherwise.
    pub mode_type: &'static str,
    pub is_armed: bool,
    pub is_auto: bool,
    /// Neither armed nor in auto mode.
    pub is_standby: bool,
    pub manual_input_enabled: bool,
    pub custom_mode_enabled: bool,
    pub guided_enabled: bool,
    pub stabilize_enabled: bool,
    pub hil_enabled: bool,
}

/// Summarises a heartbeat for display.
pub fn summarize_heartbeat(hb: &HeartbeatData) -> (s: HeartbeatSummary)
    ensures
        s.flight_mode@ == flight_mode_name(hb.autopilot, hb.custom_mode),
        s.vehicle_type@ == vehicle_type_name(hb.mavtype),
        s.system_status@ == system_status_name(hb.system_status),
        s.is_armed == has_flag(hb.base_mode, MAV_MODE_FLAG_SAFETY_ARMED),
        s.is_auto == has_flag(hb.base_mode, MAV_MODE_FLAG_AUTO_ENABLED),
        s.is_standby == (!s.is_armed && !s.is_auto),
        s.arm_status@ == (if s.is_armed { "解锁"@ } else { "加锁"@ }),
        s.mode_type@ == (if s.is_auto { "自动"@ } else { "手动"@ }),
        s.manual_input_enabled == has_flag(hb.base_mode, MAV_MODE_FLAG_MANUAL_INPUT_ENABLED),
        s.custom_mode_enabled == has_flag(hb.base_mode, MAV_MODE_FLAG_CUSTOM_MODE_ENABLED),
        s.guided_enabled == has_flag(hb.base_mode, MAV_MODE_FLAG_GUIDED_ENABLED),
        s.stabilize_enabled == has_flag(hb.base_mode, MAV_MODE_FLAG_STABILIZE_ENABLED),
        s.hil_enabled == has_flag(hb.base_mode, MAV_MODE_FLAG_HIL_ENABLED),
{
    let is_armed = contains_flag(hb.base_mode, MAV_MODE_FLAG_SAFETY_ARMED);
    let is_auto = contains_flag(hb.base_mode, MAV_MODE_FLAG_AUTO_ENABLED);
    HeartbeatSummary {
        flight_mode: flight_mode_label(hb.autopilot, hb.custom_mode),
        vehicle_type: vehicle_type_label(hb.mavtype),
        system_status: system_status_label(hb.system_status),
        arm_status: if is_armed { "解锁" } else { "加锁" },
        mode_type: if is_auto { "自动" } else { "手动" },
        is_armed,
        is_auto,
        is_standby: !is_armed && !is_auto,
        manual_input_enabled: contains_flag(hb.base_mode, MAV_MODE_FLAG_MANUAL_INPUT_ENABLED),
        custom_mode_enabled: contains_flag(hb.base_mode, MAV_MODE_FLAG_CUSTOM_MODE_ENABLED),
        guided_enabled: contains_flag(hb.base_mode, MAV_MODE_FLAG_GUIDED_ENABLED),
        stabilize_enabled: contains_flag(hb.base_mode, MAV_MODE_FLAG_STABILIZE_ENABLED),
        hil_enabled: contains_flag(hb.base_mode, MAV_MODE_FLAG_HIL_ENABLED),
    }
}

/// The digit `d` (below ten) as a character.
pub open spec fn digit_char(d: nat) -> char {
    if d == 0 {
        '0'
    } else if d == 1 {
        '1'
    } else if d == 2 {
        '2'
    } else if d == 3 {
        '3'
    } else if d == 4 {
        '4'
    } else if d == 5 {
        '5'
    } else if d == 6 {
        '6'
    } else if d == 7 {
        '7'
    } else if d == 8 {
        '8'
    } else {
        '9'
    }
}

/// `n` written in decimal, without leading zeros.
pub open spec fn decimal(n: nat) -> Seq<char>
    decreases n,
{
    if n < 10 {
        seq![digit_char(n)]
    } else {
        decimal(n / 10) + seq![digit_char(n % 10)]
    }
}

/// A JSON boolean.
pub open spec fn bool_text(b: bool) -> Seq<char> {
    if b {
        "true"@
    } else {
        "false"@
    }
}

fn push_digit(out: &mut String, d: u32)
    requires
        d < 10,
    ensures
        final(out)@ == old(out)@ + seq![digit_char(d as nat)],
{
    proof {
        reveal_strlit("0");
        reveal_strlit("1");
        reveal_strlit("2");
        reveal_strlit("3");
        reveal_strlit("4");
        reveal_strlit("5");
        reveal_strlit("6");
        reveal_strlit("7");
        reveal_strlit("8");
        reveal_strlit("9");
    }
    if d == 0 {
        out.append("0");
    } else if d == 1 {
        out.append("1");
    } else if d == 2 {
        out.append("2");
    } else if d == 3 {
        out.append("3");
    } else if d == 4 {
        out.append("4");
    } else if d == 5 {
        out.append("5");
    } else if d == 6 {
        out.append("6");
    } else if d == 7 {
        out.append("7");
    } else if d == 8 {
        out.append("8");
    } else {
        out.append("9");
    }
}

/// Appends `n` in decimal.
fn push_decimal(out: &mut String, n: u32)
    ensures
        final(out)@ == old(out)@ + decimal(n as nat),
    decreases n,
{
    if n >= 10 {
        push_decimal(out, n / 10);
        let ghost mid = out@;
        push_digit(out, n % 10);
        proof {
            assert(mid + seq![digit_char((n % 10) as nat)] =~= old(out)@ + decimal(n as nat));
        }
    } else {
        push_digit(out, n);
    }
}

fn push_bool(out: &mut String, b: bool)
    ensures
        final(out)@ == old(out)@ + bool_text(b),
{
    if b {
        out.append("true");
    } else {
        out.append("false");
    }
}

/// The JSON document published for a heartbeat from `system_id`/`component_id`
/// with packet number `sequence`: the summary of [`summarize_heartbeat`], the
/// raw custom mode and MAVLink version, the autopilot under the name given,
/// keys in sorted order, compact form.
pub open spec fn heartbeat_document(
    system_id: u8,
    component_id: u8,
    sequence: u8,
    hb: HeartbeatData,
    autopilot_name: Seq<char>,
) -> Seq<char> {
    let armed = has_flag(hb.base_mode, MAV_MODE_FLAG_SAFETY_ARMED);
    let auto = has_flag(hb.base_mode, MAV_MODE_FLAG_AUTO_ENABLED);
    "{\"data\":{\"arm_status\":\""@ + (if armed { "解锁"@ } else { "加锁"@ })
        + "\",\"autopilot\":\""@ + autopilot_name
        + "\",\"base_mode\":{\"auto_enabled\":"@ + bool_text(auto)
        + ",\"custom_mode_enabled\":"@ + bool_text(has_flag(hb.base_mode, MAV_MODE_FLAG_CUSTOM_MODE_ENABLED))
        + ",\"guided_enabled\":"@ + bool_text(has_flag(hb.base_mode, MAV_MODE_FLAG_GUIDED_ENABLED))
        + ",\"hil_enabled\":"@ + bool_text(has_flag(hb.base_mode, MAV_MODE_FLAG_HIL_ENABLED))
        + ",\"manual_input_enabled\":"@ + bool_text(has_flag(hb.base_mode, MAV_MODE_FLAG_MANUAL_INPUT_ENABLED))
        + ",\"stabilize_enabled\":"@ + bool_text(has_flag(hb.base_mode, MAV_MODE_FLAG_STABILIZE_ENABLED))
        + "},\"custom_mode\":"@ + decimal(hb.custom_mode as nat)
        + ",\"flight_mode\":\""@ + flight_mode_name(hb.autopilot, hb.custom_mode)
        + "\",\"is_armed\":"@ + bool_text(armed)
        + ",\"is_auto\":"@ + bool_text(auto)
        + ",\"is_standby\":"@ + bool_text(!armed && !auto)
        + ",\"mavlink_version\":"@ + decimal(hb.mavlink_version as nat)
        + ",\"mode_type\":\""@ + (if auto { "自动"@ } else { "手动"@ })
        + "\",\"system_status\":\""@ + system_status_name(hb.system_status)
        + "\",\"vehicle_type\":\""@ + vehicle_type_name(hb.mavtype)
        + "\"},\"header\":{\"component_id\":"@ + decimal(component_id as nat)
        + ",\"sequence\":"@ + decimal(sequence as nat)
        + ",\"system_id\":"@ + decimal(system_id as nat)
        + "},\"message_type\":\"HEARTBEAT\"}"@
}

/// Writes the JSON document published for a heartbeat.
pub fn write_heartbeat_document(
    system_id: u8,
    component_id: u8,
    sequence: u8,
    hb: &HeartbeatData,
    autopilot_name: &str,
) -> (doc: String)
    ensures
        doc@ == heartbeat_document(system_id, component_id, sequence, *hb, autopilot_name@),
{
    let s = summarize_heartbeat(hb);
    let mut out = String::new();
    out.append("{\"data\":{\"arm_status\":\"");
    out.append(s.arm_status);
    out.append("\",\"autopilot\":\"");
    out.append(autopilot_name);
    out.append("\",\"base_mode\":{\"auto_enabled\":");
    push_bool(&mut out, s.is_auto);
    out.append(",\"custom_mode_enabled\":");
    push_bool(&mut out, s.custom_mode_enabled);
    out.append(",\"guided_enabled\":");
    push_bool(&mut out, s.guided_enabled);
    out.append(",\"hil_enabled\":");
    push_bool(&mut out, s.hil_enabled);
    out.append(",\"manual_input_enabled\":");
    push_bool(&mut out, s.manual_input_enabled);
    out.append(",\"stabilize_enabled\":");
    push_bool(&mut out, s.stabilize_enabled);
    out.append("},\"custom_mode\":");
    push_decimal(&mut out, hb.custom_mode);
    out.append(",\"flight_mode\":\"");
    out.append(s.flight_mode);
    out.append("\",\"is_armed\":");
    push_bool(&mut out, s.is_armed);
    out.append(",\"is_auto\":");
    push_bool(&mut out, s.is_auto);
    out.append(",\"is_standby\":");
    push_bool(&mut out, s.is_standby);
    out.append(",\"mavlink_version\":");
    push_decimal(&mut out, hb.mavlink_version as u32);
    out.append(",\"mode_type\":\"");
    out.append(s.mode_type);
    out.append("\",\"system_status\":\"");
    out.append(s.system_status);
    out.append("\",\"vehicle_type\":\"");
    out.append(s.vehicle_type);
    out.append("\"},\"header\":{\"component_id\":");
    push_decimal(&mut out, component_id as u32);
    out.append(",\"sequence\":");
    push_decimal(&mut out, sequence as u32);
    out.append(",\"system_id\":");
    push_decimal(&mut out, system_id as u32);
    out.append("},\"message_type\":\"HEARTBEAT\"}");
    proof {
        assert(Seq::<char>::empty() + "{\"data\":{\"arm_status\":\""@ =~= "{\"data\":{\"arm_status\":\""@);
    }
    out
}

/// Each mode flag is one bit of `base_mode`: the flag is set exactly when
/// that binary digit is 1. In particular a heartbeat without flags shows a
/// disarmed vehicle on standby in manual mode.
pub proof fn lemma_flags_are_bits(base_mode: u8)
    ensures
        has_flag(base_mode, MAV_MODE_FLAG_CUSTOM_MODE_ENABLED) <==> base_mode % 2 == 1,
        has_flag(base_mode, MAV_MODE_FLAG_AUTO_ENABLED) <==> (base_mode / 4) % 2 == 1,
        has_flag(base_mode, MAV_MODE_FLAG_GUIDED_ENABLED) <==> (base_mode / 8) % 2 == 1,
        has_flag(base_mode, MAV_MODE_FLAG_STABILIZE_ENABLED) <==> (base_mode / 16) % 2 == 1,
        has_flag(base_mode, MAV_MODE_FLAG_HIL_ENABLED) <==> (base_mode / 32) % 2 == 1,
        has_flag(base_mode, MAV_MODE_FLAG_MANUAL_INPUT_ENABLED) <==> (base_mode / 64) % 2 == 1,
        has_flag(base_mode, MAV_MODE_FLAG_SAFETY_ARMED) <==> base_mode >= 128,
{
    assert(base_mode & 1u8 == 1u8 <==> base_mode % 2 == 1) by (bit_vector);
    assert(base_mode & 4u8 == 4u8 <==> (base_mode / 4) % 2 == 1) by (bit_vector);
    assert(base_mode & 8u8 == 8u8 <==> (base_mode / 8) % 2 == 1) by (bit_vector);
    assert(base_mode & 16u8 == 16u8 <==> (base_mode / 16) % 2 == 1) by (bit_vector);
    assert(base_mode & 32u8 == 32u8 <==> (base_mode / 32) % 2 == 1) by (bit_vector);
    assert(base_mode & 64u8 == 64u8 <==> (base_mode / 64) % 2 == 1) by (bit_vector);
    assert(base_mode & 128u8 == 128u8 <==> base_mode >= 128) by (bit_vector);
}

spec fn text_key(t: Seq<char>) -> (int, char, char) {
    (t.len() as int, t[0], t[1])
}

/// Each known `MAV_STATE` is shown under its own name, the one that says what
/// the state is, and every other number as unknown, which no known state is
/// shown as.
pub proof fn lemma_each_system_state_has_its_own_name(a: u8, b: u8)
    ensures
        system_status_name(MAV_STATE_UNINIT) == "未初始化"@,
        system_status_name(MAV_STATE_BOOT) == "启动中"@,
        system_status_name(MAV_STATE_CALIBRATING) == "校准中"@,
        system_status_name(MAV_STATE_STANDBY) == "待机"@,
        system_status_name(MAV_STATE_ACTIVE) == "活动"@,
        system_status_name(MAV_STATE_CRITICAL) == "严重故障"@,
        system_status_name(MAV_STATE_EMERGENCY) == "紧急状态"@,
        a > MAV_STATE_EMERGENCY ==> system_status_name(a) == "未知状态"@,
        a != b && a <= MAV_STATE_EMERGENCY ==> system_status_name(a) != system_status_name(b),
{
    reveal_strlit("未初始化");
    reveal_strlit("启动中");
    reveal_strlit("校准中");
    reveal_strlit("待机");
    reveal_strlit("活动");
    reveal_strlit("严重故障");
    reveal_strlit("紧急状态");
    reveal_strlit("未知状态");
    assert(text_key("未初始化"@) == (4int, '未', '初'));
    assert(text_key("启动中"@) == (3int, '启', '动'));
    assert(text_key("校准中"@) == (3int, '校', '准'));
    assert(text_key("待机"@) == (2int, '待', '机'));
    assert(text_key("活动"@) == (2int, '活', '动'));
    assert(text_key("严重故障"@) == (4int, '严', '重'));
    assert(text_key("紧急状态"@) == (4int, '紧', '急'));
    assert(text_key("未知状态"@) == (4int, '未', '知'));
}

/// Each known `MAV_TYPE` is shown under its own name, and every other number
/// as unknown, which no known type is shown as.
pub proof fn lemma_each_vehicle_type_has_its_own_name(a: u8, b: u8)
    ensures
        vehicle_type_name(MAV_TYPE_FIXED_WING) == "固定翼"@,
        vehicle_type_name(MAV_TYPE_QUADROTOR) == "四旋翼"@,
        vehicle_type_name(MAV_TYPE_COAXIAL) == "共轴直升机"@,
        vehicle_type_name(MAV_TYPE_GROUND_ROVER) == "地面车辆"@,
        !(a == 1 || a == 2 || a == 3 || a == 10) ==> vehicle_type_name(a) == "未知类型"@,
        a != b && (a == 1 || a == 2 || a == 3 || a == 10) ==> vehicle_type_name(a)
            != vehicle_type_name(b),
{
    reveal_strlit("固定翼");
    reveal_strlit("四旋翼");
    reveal_strlit("共轴直升机");
    reveal_strlit("地面车辆");
    reveal_strlit("未知类型");
    assert(text_key("固定翼"@) == (3int, '固', '定'));
    assert(text_key("四旋翼"@) == (3int, '四', '旋'));
    assert(text_key("共轴直升机"@) == (5int, '共', '轴'));
    assert(text_key("地面车辆"@) == (4int, '地', '面'));
    assert(text_key("未知类型"@) == (4int, '未', '知'));
}

/// The value of a string of decimal digits, read from the left.
pub open spec fn numeral_value(s: Seq<char>) -> int
    decreases s.len(),
{
    if s.len() == 0 {
        0
    } else {
        numeral_value(s.drop_last()) * 10 + (s.last() as int - '0' as int)
    }
}

/// Each digit is written as its ASCII character.
pub proof fn lemma_digit_is_ascii(d: nat)
    requires
        d < 10,
    ensures
        digit_char(d) as int == '0' as int + d,
{
}

/// `decimal(n)` is the decimal numeral of `n`: nothing but ASCII digits, no
/// leading zero, and read back as a number it is `n`.
pub proof fn lemma_decimal_is_numeral(n: nat)
    ensures
        decimal(n).len() >= 1,
        forall|i: int| 0 <= i < decimal(n).len() ==> '0' <= #[trigger] decimal(n)[i] <= '9',
        n > 0 ==> decimal(n)[0] != '0',
        numeral_value(decimal(n)) == n,
    decreases n,
{
    if n < 10 {
        lemma_digit_is_ascii(n);
        assert(decimal(n).drop_last() =~= Seq::<char>::empty());
        assert(numeral_value(Seq::<char>::empty()) == 0);
        assert(decimal(n).last() == digit_char(n));
    } else {
        lemma_decimal_is_numeral(n / 10);
        lemma_digit_is_ascii(n % 10);
        let head = decimal(n / 10);
        assert(decimal(n).drop_last() =~= head);
        assert(decimal(n)[0] == head[0]);
        assert forall|i: int| 0 <= i < decimal(n).len() implies '0' <= #[trigger] decimal(n)[i]
            <= '9' by {
            if i < head.len() {
                assert(decimal(n)[i] == head[i]);
            }
        }
        assert(decimal(n).last() == digit_char(n % 10));
        assert(numeral_value(decimal(n)) == numeral_value(head) * 10 + (digit_char(n % 10) as int
            - '0' as int));
        assert(n == (n / 10) * 10 + n % 10);
    }
}

/// Armed and disarmed vehicles, and auto and manual mode, are shown under
/// different words, so the summary tells them apart.
pub proof fn lemma_status_words_differ()
    ensures
        "解锁"@ != "加锁"@,
        "自动"@ != "手动"@,
{
    reveal_strlit("解锁");
    reveal_strlit("加锁");
    reveal_strlit("自动");
    reveal_strlit("手动");
    assert("解锁"@[0] != "加锁"@[0]);
    assert("自动"@[0] != "手动"@[0]);
}

} // verus!
