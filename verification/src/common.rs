//! The values that cross the bridge: the operator's configuration and the two
//! kinds of sensor reading.

use vstd::prelude::*;

verus! {

/// Connection parameters collected from the operator. Empty credentials
/// stand for an anonymous connection.
#[derive(Debug)]
pub struct ClientData {
    pub mqtt_hostname: String,
    pub mqtt_port: i32,
    pub mqtt_user: String,
    pub mqtt_pwd: String,
    pub udp_port: i32,
}

impl ClientData {
    /// A configuration for the given broker and local port, with no
    /// credentials: the bridge will connect anonymously.
    pub fn new(mqtt_hostname: String, mqtt_port: i32, udp_port: i32) -> (config: Self)
        ensures
            config.mqtt_hostname == mqtt_hostname,
            config.mqtt_port == mqtt_port,
            config.udp_port == udp_port,
            config.mqtt_user@ == Seq::<char>::empty(),
            config.mqtt_pwd@ == Seq::<char>::empty(),
    {
        ClientData {
            mqtt_hostname,
            mqtt_port,
            mqtt_user: String::new(),
            mqtt_pwd: String::new(),
            udp_port,
        }
    }
}

impl Clone for ClientData {
    fn clone(&self) -> (copy: Self)
        ensures
            copy == *self,
    {
        ClientData {
            mqtt_hostname: self.mqtt_hostname.clone(),
            mqtt_port: self.mqtt_port,
            mqtt_user: self.mqtt_user.clone(),
            mqtt_pwd: self.mqtt_pwd.clone(),
            udp_port: self.udp_port,
        }
    }
}

/// A sensor reading. The wire form carries no tag: which kind a reading is
/// follows from the members that are present.
#[derive(Debug)]
pub enum JsonData {
    /// An inertial measurement: acceleration and rotation on three axes.
    MPU6050Data {
        source: String,
        acc_x: i64,
        acc_y: i64,
        acc_z: i64,
        rot_x: i64,
        rot_y: i64,
        rot_z: i64,
    },
    /// A distance measurement.
    UWBData { source: String, range: i64 },
}

/// The mathematical value of a [`JsonData`].
pub enum Reading {
    Inertial {
        source: Seq<char>,
        acc_x: i64,
        acc_y: i64,
        acc_z: i64,
        rot_x: i64,
        rot_y: i64,
        rot_z: i64,
    },
    Range { source: Seq<char>, range: i64 },
}

impl View for JsonData {
    type V = Reading;

    open spec fn view(&self) -> Reading {
        match *self {
            JsonData::MPU6050Data { source, acc_x, acc_y, acc_z, rot_x, rot_y, rot_z } => {
                Reading::Inertial { source: source@, acc_x, acc_y, acc_z, rot_x, rot_y, rot_z }
            },
            JsonData::UWBData { source, range } => Reading::Range { source: source@, range },
        }
    }
}

impl Clone for JsonData {
    fn clone(&self) -> (copy: Self)
        ensures
            copy@ == self@,
    {
        match self {
            JsonData::MPU6050Data { source, acc_x, acc_y, acc_z, rot_x, rot_y, rot_z } => {
                JsonData::MPU6050Data {
                    source: source.clone(),
                    acc_x: *acc_x,
                    acc_y: *acc_y,
                    acc_z: *acc_z,
                    rot_x: *rot_x,
                    rot_y: *rot_y,
                    rot_z: *rot_z,
                }
            },
            JsonData::UWBData { source, range } => {
                JsonData::UWBData { source: source.clone(), range: *range }
            },
        }
    }
}

impl PartialEq for JsonData {
    fn eq(&self, other: &Self) -> (equal: bool) {
        match (self, other) {
            (
                JsonData::MPU6050Data { source, acc_x, acc_y, acc_z, rot_x, rot_y, rot_z },
                JsonData::MPU6050Data {
                    source: source2,
                    acc_x: acc_x2,
                    acc_y: acc_y2,
                    acc_z: acc_z2,
                    rot_x: rot_x2,
                    rot_y: rot_y2,
                    rot_z: rot_z2,
                },
            ) => {
                *source == *source2 && *acc_x == *acc_x2 && *acc_y == *acc_y2 && *acc_z == *acc_z2
                    && *rot_x == *rot_x2 && *rot_y == *rot_y2 && *rot_z == *rot_z2
            },
            (
                JsonData::UWBData { source, range },
                JsonData::UWBData { source: source2, range: range2 },
            ) => *source == *source2 && *range == *range2,
            _ => false,
        }
    }
}

impl vstd::std_specs::cmp::PartialEqSpecImpl for JsonData {
    open spec fn obeys_eq_spec() -> bool {
        true
    }

    open spec fn eq_spec(&self, other: &Self) -> bool {
        self@ == other@
    }
}

} // verus!
