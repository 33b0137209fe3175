//! Well-known alert ids of the home-control convention.
//!
//! Alert ids follow the protocol's id rules (lowercase `a-z`, `0-9`, `-`) and
//! carry the `hc-` prefix. Devices may publish custom alert ids without it;
//! those are not recognised here.
use vstd::prelude::*;

use crate::codec::str_equal;

verus! {

/// Battery level is low.
pub const HC_ALERT_BATTERY_LOW: &'static str = "hc-battery-low";

/// Battery level is critically low.
pub const HC_ALERT_BATTERY_CRITICAL: &'static str = "hc-battery-critical";

/// Device is unreachable on the underlying network or protocol.
pub const HC_ALERT_UNREACHABLE: &'static str = "hc-unreachable";

/// No update has been received from the device for an extended period.
pub const HC_ALERT_UPDATE_OVERDUE: &'static str = "hc-update-overdue";

/// The device has a configuration error.
pub const HC_ALERT_CONFIG_ERROR: &'static str = "hc-config-error";

/// A sensor on the device reports faulty or out-of-range readings.
pub const HC_ALERT_SENSOR_FAULT: &'static str = "hc-sensor-fault";

/// Physical tampering was detected on the device.
pub const HC_ALERT_TAMPER: &'static str = "hc-tamper";

/// Communication error with the underlying protocol.
pub const HC_ALERT_COMM_ERROR: &'static str = "hc-comm-error";

/// The well-known alert ids.
#[derive(Debug, PartialEq, Eq, Clone, Copy, Hash, Structural)]
pub enum SmarthomeAlert {
    BatteryLow,
    BatteryCritical,
    Unreachable,
    UpdateOverdue,
    ConfigError,
    SensorFault,
    Tamper,
    CommError,
}

impl SmarthomeAlert {
    pub open spec fn id(self) -> Seq<char> {
        match self {
            SmarthomeAlert::BatteryLow => HC_ALERT_BATTERY_LOW@,
            SmarthomeAlert::BatteryCritical => HC_ALERT_BATTERY_CRITICAL@,
            SmarthomeAlert::Unreachable => HC_ALERT_UNREACHABLE@,
            SmarthomeAlert::UpdateOverdue => HC_ALERT_UPDATE_OVERDUE@,
            SmarthomeAlert::ConfigError => HC_ALERT_CONFIG_ERROR@,
            SmarthomeAlert::SensorFault => HC_ALERT_SENSOR_FAULT@,
            SmarthomeAlert::Tamper => HC_ALERT_TAMPER@,
            SmarthomeAlert::CommError => HC_ALERT_COMM_ERROR@,
        }
    }

    /// The alert a text names, checking the ids in declaration order.
    pub open spec fn of_id(s: Seq<char>) -> Option<SmarthomeAlert> {
        if s == HC_ALERT_BATTERY_LOW@ {
            Some(SmarthomeAlert::BatteryLow)
        } else if s == HC_ALERT_BATTERY_CRITICAL@ {
            Some(SmarthomeAlert::BatteryCritical)
        } else if s == HC_ALERT_UNREACHABLE@ {
            Some(SmarthomeAlert::Unreachable)
        } else if s == HC_ALERT_UPDATE_OVERDUE@ {
            Some(SmarthomeAlert::UpdateOverdue)
        } else if s == HC_ALERT_CONFIG_ERROR@ {
            Some(SmarthomeAlert::ConfigError)
        } else if s == HC_ALERT_SENSOR_FAULT@ {
            Some(SmarthomeAlert::SensorFault)
        } else if s == HC_ALERT_TAMPER@ {
            Some(SmarthomeAlert::Tamper)
        } else if s == HC_ALERT_COMM_ERROR@ {
            Some(SmarthomeAlert::CommError)
        } else {
            None
        }
    }

    /// The id of this alert.
    pub fn as_str(&self) -> (r: &'static str)
        ensures
            r@ == self.id(),
    {
        match self {
            SmarthomeAlert::BatteryLow => HC_ALERT_BATTERY_LOW,
            SmarthomeAlert::BatteryCritical => HC_ALERT_BATTERY_CRITICAL,
            SmarthomeAlert::Unreachable => HC_ALERT_UNREACHABLE,
            SmarthomeAlert::UpdateOverdue => HC_ALERT_UPDATE_OVERDUE,
            SmarthomeAlert::ConfigError => HC_ALERT_CONFIG_ERROR,
            SmarthomeAlert::SensorFault => HC_ALERT_SENSOR_FAULT,
            SmarthomeAlert::Tamper => HC_ALERT_TAMPER,
            SmarthomeAlert::CommError => HC_ALERT_COMM_ERROR,
        }
    }

    /// The well-known alert an id names; `None` for custom ids.
    pub fn from_id(id: &str) -> (r: Option<SmarthomeAlert>)
        ensures
            r == SmarthomeAlert::of_id(id@),
    {
        if str_equal(id, HC_ALERT_BATTERY_LOW) {
            Some(SmarthomeAlert::BatteryLow)
        } else if str_equal(id, HC_ALERT_BATTERY_CRITICAL) {
            Some(SmarthomeAlert::BatteryCritical)
        } else if str_equal(id, HC_ALERT_UNREACHABLE) {
            Some(SmarthomeAlert::Unreachable)
        } else if str_equal(id, HC_ALERT_UPDATE_OVERDUE) {
            Some(SmarthomeAlert::UpdateOverdue)
        } else if str_equal(id, HC_ALERT_CONFIG_ERROR) {
            Some(SmarthomeAlert::ConfigError)
        } else if str_equal(id, HC_ALERT_SENSOR_FAULT) {
            Some(SmarthomeAlert::SensorFault)
        } else if str_equal(id, HC_ALERT_TAMPER) {
            Some(SmarthomeAlert::Tamper)
        } else if str_equal(id, HC_ALERT_COMM_ERROR) {
            Some(SmarthomeAlert::CommError)
        } else {
            None
        }
    }

    /// Parses an alert id; the error carries nothing.
    pub fn from_str(s: &str) -> (r: Result<SmarthomeAlert, ()>)
        ensures
            r == match SmarthomeAlert::of_id(s@) {
                Some(a) => Ok::<SmarthomeAlert, ()>(a),
                None => Err(()),
            },
    {
        match SmarthomeAlert::from_id(s) {
            Some(a) => Ok(a),
            None => Err(()),
        }
    }

    /// The id as an owned text.
    pub fn to_string(&self) -> (r: String)
        ensures
            r@ == self.id(),
    {
        self.as_str().to_owned()
    }
}


proof fn lemma_alert_ids_distinct()
    ensures
        forall|a: SmarthomeAlert, b: SmarthomeAlert| a.id() == b.id() ==> a == b,
{
    reveal_strlit("hc-battery-low");
    reveal_strlit("hc-battery-critical");
    reveal_strlit("hc-unreachable");
    reveal_strlit("hc-update-overdue");
    reveal_strlit("hc-config-error");
    reveal_strlit("hc-sensor-fault");
    reveal_strlit("hc-tamper");
    reveal_strlit("hc-comm-error");
    assert(HC_ALERT_BATTERY_LOW@.len() != HC_ALERT_BATTERY_CRITICAL@.len());
    assert(HC_ALERT_BATTERY_LOW@[3] != HC_ALERT_UNREACHABLE@[3]);
    assert(HC_ALERT_BATTERY_LOW@.len() != HC_ALERT_UPDATE_OVERDUE@.len());
    assert(HC_ALERT_BATTERY_LOW@.len() != HC_ALERT_CONFIG_ERROR@.len());
    assert(HC_ALERT_BATTERY_LOW@.len() != HC_ALERT_SENSOR_FAULT@.len());
    assert(HC_ALERT_BATTERY_LOW@.len() != HC_ALERT_TAMPER@.len());
    assert(HC_ALERT_BATTERY_LOW@.len() != HC_ALERT_COMM_ERROR@.len());
    assert(HC_ALERT_BATTERY_CRITICAL@.len() != HC_ALERT_UNREACHABLE@.len());
    assert(HC_ALERT_BATTERY_CRITICAL@.len() != HC_ALERT_UPDATE_OVERDUE@.len());
    assert(HC_ALERT_BATTERY_CRITICAL@.len() != HC_ALERT_CONFIG_ERROR@.len());
    assert(HC_ALERT_BATTERY_CRITICAL@.len() != HC_ALERT_SENSOR_FAULT@.len());
    assert(HC_ALERT_BATTERY_CRITICAL@.len() != HC_ALERT_TAMPER@.len());
    assert(HC_ALERT_BATTERY_CRITICAL@.len() != HC_ALERT_COMM_ERROR@.len());
    assert(HC_ALERT_UNREACHABLE@.len() != HC_ALERT_UPDATE_OVERDUE@.len());
    assert(HC_ALERT_UNREACHABLE@.len() != HC_ALERT_CONFIG_ERROR@.len());
    assert(HC_ALERT_UNREACHABLE@.len() != HC_ALERT_SENSOR_FAULT@.len());
    assert(HC_ALERT_UNREACHABLE@.len() != HC_ALERT_TAMPER@.len());
    assert(HC_ALERT_UNREACHABLE@.len() != HC_ALERT_COMM_ERROR@.len());
    assert(HC_ALERT_UPDATE_OVERDUE@.len() != HC_ALERT_CONFIG_ERROR@.len());
    assert(HC_ALERT_UPDATE_OVERDUE@.len() != HC_ALERT_SENSOR_FAULT@.len());
    assert(HC_ALERT_UPDATE_OVERDUE@.len() != HC_ALERT_TAMPER@.len());
    assert(HC_ALERT_UPDATE_OVERDUE@.len() != HC_ALERT_COMM_ERROR@.len());
    assert(HC_ALERT_CONFIG_ERROR@[3] != HC_ALERT_SENSOR_FAULT@[3]);
    assert(HC_ALERT_CONFIG_ERROR@.len() != HC_ALERT_TAMPER@.len());
    assert(HC_ALERT_CONFIG_ERROR@.len() != HC_ALERT_COMM_ERROR@.len());
    assert(HC_ALERT_SENSOR_FAULT@.len() != HC_ALERT_TAMPER@.len());
    assert(HC_ALERT_SENSOR_FAULT@.len() != HC_ALERT_COMM_ERROR@.len());
    assert(HC_ALERT_TAMPER@.len() != HC_ALERT_COMM_ERROR@.len());
}

/// Round trip: every alert is recognised from its own id.
pub proof fn lemma_alert_id_round_trip(alert: SmarthomeAlert)
    ensures
        SmarthomeAlert::of_id(alert.id()) == Some(alert),
{
    lemma_alert_ids_distinct();
    assert(SmarthomeAlert::BatteryLow.id() == alert.id() ==> SmarthomeAlert::BatteryLow == alert);
    assert(SmarthomeAlert::BatteryCritical.id() == alert.id()
        ==> SmarthomeAlert::BatteryCritical == alert);
    assert(SmarthomeAlert::Unreachable.id() == alert.id() ==> SmarthomeAlert::Unreachable == alert);
    assert(
        SmarthomeAlert::UpdateOverdue.id() == alert.id() ==> SmarthomeAlert::UpdateOverdue == alert
    );
    assert(SmarthomeAlert::ConfigError.id() == alert.id() ==> SmarthomeAlert::ConfigError == alert);
    assert(SmarthomeAlert::SensorFault.id() == alert.id() ==> SmarthomeAlert::SensorFault == alert);
    assert(SmarthomeAlert::Tamper.id() == alert.id() ==> SmarthomeAlert::Tamper == alert);
    assert(SmarthomeAlert::CommError.id() == alert.id() ==> SmarthomeAlert::CommError == alert);
}

} // verus!
