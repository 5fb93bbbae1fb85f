//! Control packets, the names of buttons, and what the server does with each
//! control packet of the client.

use vstd::prelude::*;
use vstd::string::StringExecFns;
use crate::scalar::Scalar;
use crate::scalar::TWO_BITS;
use crate::settings::Settings;
use crate::statistics::with_gauge;
use crate::statistics::StatisticsManager;
use crate::text::append_hex16;
use crate::text::hex16;

verus! {

/// Field of view of one eye, as four half-angles.
#[derive(Clone, Copy, Debug, PartialEq, Eq, Structural)]
pub struct Fov {
    pub left: Scalar,
    pub right: Scalar,
    pub top: Scalar,
    pub bottom: Scalar,
}

/// Fields of view of both eyes and the distance between them, in meters.
#[derive(Clone, Copy, Debug, PartialEq, Eq, Structural)]
pub struct ViewsConfig {
    pub left_fov: Fov,
    pub right_fov: Fov,
    pub ipd_m: Scalar,
}

/// The charge of a device.
#[derive(Clone, Copy, Debug, PartialEq, Eq, Structural)]
pub struct BatteryPacket {
    pub device_id: u64,
    pub gauge_value: Scalar,
    pub is_plugged: bool,
}

/// The state of a button: pressed or not, or how far.
#[derive(Clone, Copy, Debug, PartialEq, Eq, Structural)]
pub enum ButtonValue {
    Binary(bool),
    Scalar(Scalar),
}

/// What the client sends on the control socket.
#[derive(Clone, Copy, Debug, PartialEq, Eq, Structural)]
pub enum ClientControlPacket {
    PlayspaceSync { width: Scalar, height: Scalar },
    RequestIdr,
    KeepAlive,
    StreamReady,
    ViewsConfig(ViewsConfig),
    Battery(BatteryPacket),
    VideoErrorReport,
    Button { path_id: u64, value: ButtonValue },
}

/// What the server sends on the control socket.
#[derive(Clone, Copy, Debug, PartialEq, Eq, Structural)]
pub enum ServerControlPacket {
    StartStream,
    Restarting,
    KeepAlive,
}

/// A call into the VR driver.
#[derive(Clone, Copy, Debug, PartialEq, Eq, Structural)]
pub enum DriverCall {
    SetChaperone { width: Scalar, height: Scalar },
    RequestIdr,
    VideoErrorReport,
    SetViewsConfig { config: ViewsConfig },
    SetBattery { device_id: u64, gauge_value: Scalar, is_plugged: bool },
    SetButton { path_id: u64, value: ButtonValue },
}

/// What follows one turn of the control loop.
#[derive(Clone, Copy, Debug, PartialEq, Eq, Structural)]
pub struct ControlStep {
    /// The call to make, if any.
    pub driver: Option<DriverCall>,
    /// Whether to log the button, under the name that
    /// [`ButtonPaths::display`] gives its id.
    pub log_button: bool,
    /// Whether the client is gone: the disconnection is announced and the
    /// loop ends without error.
    pub disconnected: bool,
}

/// What the control loop does with what it received; `None` stands for a
/// failed receive. The playspace goes to the driver only where the server
/// is more than a tracking reference, and never smaller than two by two.
pub open spec fn control_step_of(
    received: Option<ClientControlPacket>,
    tracking_ref_only: bool,
    log_button_presses: bool,
) -> ControlStep {
    match received {
        None => ControlStep { driver: None, log_button: false, disconnected: true },
        Some(ClientControlPacket::PlayspaceSync { width, height }) => ControlStep {
            driver: if tracking_ref_only {
                None
            } else {
                Some(
                    DriverCall::SetChaperone {
                        width: if width.exceeds_two() {
                            width
                        } else {
                            Scalar { bits: TWO_BITS }
                        },
                        height: if height.exceeds_two() {
                            height
                        } else {
                            Scalar { bits: TWO_BITS }
                        },
                    },
                )
            },
            log_button: false,
            disconnected: false,
        },
        Some(ClientControlPacket::RequestIdr) => ControlStep {
            driver: Some(DriverCall::RequestIdr),
            log_button: false,
            disconnected: false,
        },
        Some(ClientControlPacket::VideoErrorReport) => ControlStep {
            driver: Some(DriverCall::VideoErrorReport),
            log_button: false,
            disconnected: false,
        },
        Some(ClientControlPacket::ViewsConfig(config)) => ControlStep {
            driver: Some(DriverCall::SetViewsConfig { config }),
            log_button: false,
            disconnected: false,
        },
        Some(ClientControlPacket::Battery(packet)) => ControlStep {
            driver: Some(
                DriverCall::SetBattery {
                    device_id: packet.device_id,
                    gauge_value: packet.gauge_value,
                    is_plugged: packet.is_plugged,
                },
            ),
            log_button: false,
            disconnected: false,
        },
        Some(ClientControlPacket::Button { path_id, value }) => ControlStep {
            driver: Some(DriverCall::SetButton { path_id, value }),
            log_button: log_button_presses,
            disconnected: false,
        },
        Some(_) => ControlStep { driver: None, log_button: false, disconnected: false },
    }
}

/// Handles what the control loop received; `None` stands for a failed
/// receive. A reported charge is also kept in the statistics.
pub fn control_dispatch(
    stats: &mut StatisticsManager,
    received: Option<ClientControlPacket>,
    settings: &Settings,
) -> (step: ControlStep)
    requires
        old(stats).wf(),
    ensures
        final(stats).wf(),
        step == control_step_of(
            received,
            settings.headset.tracking_ref_only,
            settings.extra.log_button_presses,
        ),
        final(stats).samples() == old(stats).samples(),
        final(stats).capacity() == old(stats).capacity(),
        final(stats).prev_vsync() == old(stats).prev_vsync(),
        final(stats).last_average() == old(stats).last_average(),
        final(stats).gauges() == (match received {
            Some(ClientControlPacket::Battery(packet)) => with_gauge(
                old(stats).gauges(),
                packet.device_id,
                packet.gauge_value,
            ),
            _ => old(stats).gauges(),
        }),
{
    match received {
        None => ControlStep { driver: None, log_button: false, disconnected: true },
        Some(ClientControlPacket::PlayspaceSync { width, height }) => {
            let driver = if settings.headset.tracking_ref_only {
                None
            } else {
                Some(
                    DriverCall::SetChaperone {
                        width: width.at_least_two(),
                        height: height.at_least_two(),
                    },
                )
            };
            ControlStep { driver, log_button: false, disconnected: false }
        },
        Some(ClientControlPacket::RequestIdr) => ControlStep {
            driver: Some(DriverCall::RequestIdr),
            log_button: false,
            disconnected: false,
        },
        Some(ClientControlPacket::VideoErrorReport) => ControlStep {
            driver: Some(DriverCall::VideoErrorReport),
            log_button: false,
            disconnected: false,
        },
        Some(ClientControlPacket::ViewsConfig(config)) => ControlStep {
            driver: Some(DriverCall::SetViewsConfig { config }),
            log_button: false,
            disconnected: false,
        },
        Some(ClientControlPacket::Battery(packet)) => {
            stats.report_battery(packet.device_id, packet.gauge_value);
            ControlStep {
                driver: Some(
                    DriverCall::SetBattery {
                        device_id: packet.device_id,
                        gauge_value: packet.gauge_value,
                        is_plugged: packet.is_plugged,
                    },
                ),
                log_button: false,
                disconnected: false,
            }
        },
        Some(ClientControlPacket::Button { path_id, value }) => ControlStep {
            driver: Some(DriverCall::SetButton { path_id, value }),
            log_button: settings.extra.log_button_presses,
            disconnected: false,
        },
        Some(_) => ControlStep { driver: None, log_button: false, disconnected: false },
    }
}

struct ButtonPath {
    id: u64,
    path: String,
}

/// The buttons that are known by name: each has one id and one path, and
/// neither an id nor a path occurs twice.
pub struct ButtonPaths {
    entries: Vec<ButtonPath>,
}

spec fn has_id(entries: Seq<ButtonPath>, id: u64) -> bool {
    exists|i: int| 0 <= i < entries.len() && (#[trigger] entries[i]).id == id
}

spec fn index_of_id(entries: Seq<ButtonPath>, id: u64) -> int {
    choose|i: int| 0 <= i < entries.len() && (#[trigger] entries[i]).id == id
}

spec fn has_path(entries: Seq<ButtonPath>, path: Seq<char>) -> bool {
    exists|i: int| 0 <= i < entries.len() && (#[trigger] entries[i]).path@ == path
}

spec fn index_of_path(entries: Seq<ButtonPath>, path: Seq<char>) -> int {
    choose|i: int| 0 <= i < entries.len() && (#[trigger] entries[i]).path@ == path
}

/// The text shown for a button whose id is not known.
pub open spec fn unknown_button(path_id: u64) -> Seq<char> {
    "Unknown (0x"@ + hex16(path_id) + ")"@
}

impl ButtonPaths {
    /// Neither an id nor a path occurs twice.
    pub closed spec fn wf(&self) -> bool {
        &&& forall|i: int, j: int|
            0 <= i < j < self.entries@.len() ==> (#[trigger] self.entries@[i]).id != (
            #[trigger] self.entries@[j]).id
        &&& forall|i: int, j: int|
            0 <= i < j < self.entries@.len() ==> (#[trigger] self.entries@[i]).path@ != (
            #[trigger] self.entries@[j]).path@
    }

    /// Whether the id is that of a known button.
    pub closed spec fn knows_id(&self, id: u64) -> bool {
        has_id(self.entries@, id)
    }

    /// Whether the path is that of a known button.
    pub closed spec fn knows_path(&self, path: Seq<char>) -> bool {
        has_path(self.entries@, path)
    }

    /// The path of the known button with this id.
    pub closed spec fn path_of(&self, id: u64) -> Seq<char> {
        self.entries@[index_of_id(self.entries@, id)].path@
    }

    /// The id of the known button with this path.
    pub closed spec fn id_of(&self, path: Seq<char>) -> u64 {
        self.entries@[index_of_path(self.entries@, path)].id
    }

    /// The number of known buttons.
    pub closed spec fn count(&self) -> nat {
        self.entries@.len()
    }

    /// On the known buttons, ids and paths correspond one to one: the path
    /// of an id is known and leads back to the id, and the id of a path is
    /// known and leads back to the path.
    pub proof fn lemma_bijection(&self, id: u64, path: Seq<char>)
        requires
            self.wf(),
        ensures
            self.knows_id(id) ==> self.knows_path(self.path_of(id)) && self.id_of(self.path_of(id))
                == id,
            self.knows_path(path) ==> self.knows_id(self.id_of(path)) && self.path_of(
                self.id_of(path),
            ) == path,
            (self.knows_id(id) && self.path_of(id) == path) <==> (self.knows_path(path)
                && self.id_of(path) == id),
    {
        let entries = self.entries@;
        if has_id(entries, id) {
            let i = index_of_id(entries, id);
            let back = index_of_path(entries, entries[i].path@);
            assert(entries[i].path@ == entries[i].path@);
            assert(0 <= back < entries.len() && entries[back].path@ == entries[i].path@);
            assert(back == i);
        }
        if has_path(entries, path) {
            let i = index_of_path(entries, path);
            let back = index_of_id(entries, entries[i].id);
            assert(entries[i].id == entries[i].id);
            assert(0 <= back < entries.len() && entries[back].id == entries[i].id);
            assert(back == i);
        }
    }

    /// No button is known.
    pub fn new() -> (buttons: ButtonPaths)
        ensures
            buttons.wf(),
            buttons.count() == 0,
            forall|id: u64| !buttons.knows_id(id),
            forall|path: Seq<char>| !buttons.knows_path(path),
    {
        ButtonPaths { entries: Vec::new() }
    }

    /// The number of known buttons.
    pub fn len(&self) -> (n: usize)
        ensures
            n == self.count(),
    {
        self.entries.len()
    }

    fn position_of_id(&self, id: u64) -> (place: Option<usize>)
        requires
            self.wf(),
        ensures
            place is Some <==> self.knows_id(id),
            place matches Some(i) ==> i < self.entries@.len() && i == index_of_id(self.entries@, id)
                && self.entries@[i as int].id == id,
    {
        let mut i: usize = 0;
        while i < self.entries.len()
            invariant
                i <= self.entries@.len(),
                self.wf(),
                forall|k: int| 0 <= k < i ==> (#[trigger] self.entries@[k]).id != id,
            decreases self.entries@.len() - i,
        {
            if self.entries[i].id == id {
                proof {
                    let k = index_of_id(self.entries@, id);
                    assert(self.entries@[i as int].id == id);
                    assert(0 <= k < self.entries@.len() && self.entries@[k].id == id);
                }
                return Some(i);
            }
            i = i + 1;
        }
        None
    }

    fn position_of_path(&self, path: &String) -> (place: Option<usize>)
        requires
            self.wf(),
        ensures
            place is Some <==> self.knows_path(path@),
            place matches Some(i) ==> i < self.entries@.len() && i == index_of_path(
                self.entries@,
                path@,
            ) && self.entries@[i as int].path@ == path@,
    {
        let mut i: usize = 0;
        while i < self.entries.len()
            invariant
                i <= self.entries@.len(),
                self.wf(),
                forall|k: int| 0 <= k < i ==> (#[trigger] self.entries@[k]).path@ != path@,
            decreases self.entries@.len() - i,
        {
            if self.entries[i].path == *path {
                proof {
                    let k = index_of_path(self.entries@, path@);
                    assert(self.entries@[i as int].path@ == path@);
                    assert(0 <= k < self.entries@.len() && self.entries@[k].path@ == path@);
                }
                return Some(i);
            }
            i = i + 1;
        }
        None
    }

    /// Makes a button known under an id and a path. Nothing changes, and
    /// `false` is returned, where the id or the path is taken.
    pub fn register(&mut self, id: u64, path: String) -> (added: bool)
        requires
            old(self).wf(),
        ensures
            final(self).wf(),
            added == (!old(self).knows_id(id) && !old(self).knows_path(path@)),
            !added ==> *final(self) == *old(self),
            added ==> final(self).count() == old(self).count() + 1,
            added ==> final(self).knows_id(id) && final(self).path_of(id) == path@,
            added ==> final(self).knows_path(path@) && final(self).id_of(path@) == id,
            added ==> forall|other: u64|
                other != id ==> (#[trigger] final(self).knows_id(other) == old(self).knows_id(
                    other,
                )) && (old(self).knows_id(other) ==> final(self).path_of(other) == old(
                    self,
                ).path_of(other)),
            added ==> forall|other: Seq<char>|
                other != path@ ==> (#[trigger] final(self).knows_path(other) == old(
                    self,
                ).knows_path(other)) && (old(self).knows_path(other) ==> final(self).id_of(other)
                    == old(self).id_of(other)),
    {
        if self.position_of_id(id).is_some() || self.position_of_path(&path).is_some() {
            return false;
        }
        let ghost before = self.entries@;
        let ghost text = path@;
        self.entries.push(ButtonPath { id, path });
        proof {
            let after = self.entries@;
            let last = before.len() as int;
            assert(after[last].id == id && after[last].path@ == text);
            assert forall|i: int, j: int| 0 <= i < j < after.len() implies (#[trigger] after[i]).id
                != (#[trigger] after[j]).id by {
                assert(after[i] == before[i]);
                if j < last {
                    assert(after[j] == before[j]);
                }
            }
            assert forall|i: int, j: int| 0 <= i < j < after.len() implies (
            #[trigger] after[i]).path@ != (#[trigger] after[j]).path@ by {
                assert(after[i] == before[i]);
                if j < last {
                    assert(after[j] == before[j]);
                }
            }
            let k = index_of_id(after, id);
            assert(0 <= k < after.len() && after[k].id == id);
            assert(k == last);
            let p = index_of_path(after, text);
            assert(0 <= p < after.len() && after[p].path@ == text);
            assert(p == last);
            assert forall|other: u64| other != id implies (#[trigger] has_id(after, other)
                == has_id(before, other)) && (has_id(before, other) ==> after[index_of_id(
                after,
                other,
            )].path@ == before[index_of_id(before, other)].path@) by {
                if has_id(before, other) {
                    let b = index_of_id(before, other);
                    assert(after[b].id == other);
                    let a = index_of_id(after, other);
                    assert(0 <= a < after.len() && after[a].id == other);
                    assert(a == b);
                }
                if has_id(after, other) {
                    let a = index_of_id(after, other);
                    assert(before[a].id == other);
                }
            }
            assert forall|other: Seq<char>| other != text implies (#[trigger] has_path(after, other)
                == has_path(before, other)) && (has_path(before, other) ==> after[index_of_path(
                after,
                other,
            )].id == before[index_of_path(before, other)].id) by {
                if has_path(before, other) {
                    let b = index_of_path(before, other);
                    assert(after[b].path@ == other);
                    let a = index_of_path(after, other);
                    assert(0 <= a < after.len() && after[a].path@ == other);
                    assert(a == b);
                }
                if has_path(after, other) {
                    let a = index_of_path(after, other);
                    assert(before[a].path@ == other);
                }
            }
        }
        true
    }

    /// The path of the button with this id, where it is known.
    pub fn path_from_id(&self, id: u64) -> (path: Option<String>)
        requires
            self.wf(),
        ensures
            path is Some <==> self.knows_id(id),
            path matches Some(text) ==> text@ == self.path_of(id),
    {
        match self.position_of_id(id) {
            Some(i) => Some(self.entries[i].path.clone()),
            None => None,
        }
    }

    /// The id of the button with this path, where it is known.
    pub fn id_from_path(&self, path: &String) -> (id: Option<u64>)
        requires
            self.wf(),
        ensures
            id is Some <==> self.knows_path(path@),
            id matches Some(value) ==> value == self.id_of(path@),
    {
        match self.position_of_path(path) {
            Some(i) => Some(self.entries[i].id),
            None => None,
        }
    }

    /// The name under which a button is logged: its path, or the id in
    /// sixteen hexadecimal digits where the button is not known.
    pub fn display(&self, path_id: u64) -> (name: String)
        requires
            self.wf(),
        ensures
            name@ == (if self.knows_id(path_id) {
                self.path_of(path_id)
            } else {
                unknown_button(path_id)
            }),
    {
        match self.path_from_id(path_id) {
            Some(path) => path,
            None => {
                let mut name = String::from_str("Unknown (0x");
                append_hex16(&mut name, path_id);
                name.append(")");
                name
            },
        }
    }
}

} // verus!
