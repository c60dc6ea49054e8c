//! Devices and device profiles.
//!
//! A device profile describes a device class: the ordered list of uplink
//! field names the class reports, and the ordered list of downlink commands
//! it accepts. A device carries the remote attributes the engine reads: its
//! EUI, its application id and its profile id. Loading these values from the
//! remote management server is the embedding application's job; the engine
//! only reads them.

use vstd::prelude::*;

use crate::textutil::str_eq;

verus! {

/// The labels of the measured data in an uplink message, in profile order.
pub struct Uplink {
    pub payloads: Vec<String>,
}

impl Uplink {
    /// Creates a new uplink field list.
    pub fn new(payloads: Vec<String>) -> (r: Self)
        ensures
            r.payloads == payloads,
    {
        Uplink { payloads }
    }

    /// Adds a field label.
    pub fn add_payload(&mut self, payload_str: &str)
        ensures
            final(self).payloads@.len() == old(self).payloads@.len() + 1,
            final(self).payloads@.last()@ == payload_str@,
            forall|i: int|
                0 <= i < old(self).payloads@.len() ==> final(self).payloads@[i] == old(
                    self,
                ).payloads@[i],
    {
        self.payloads.push(payload_str.to_owned());
    }

    /// Gets all field labels.
    pub fn get_payloads(&self) -> (r: &Vec<String>)
        ensures
            r == &self.payloads,
    {
        return &self.payloads;
    }
}

/// One downlink command of a device profile: a short name, a longer
/// description, whether the command text may be configured by the user, and
/// the command itself encoded in hexadecimal.
pub struct DownlinkPayload {
    pub command_name: String,
    pub description: String,
    pub configurable: bool,
    pub hex_code: String,
}

impl DownlinkPayload {
    /// Creates a new downlink command description.
    pub fn new(command_name: &str, description: &str, configurable: bool, hex_code: &str) -> (r:
        Self)
        ensures
            r.command_name@ == command_name@,
            r.description@ == description@,
            r.configurable == configurable,
            r.hex_code@ == hex_code@,
    {
        DownlinkPayload {
            command_name: command_name.to_owned(),
            description: description.to_owned(),
            configurable,
            hex_code: hex_code.to_owned(),
        }
    }

    /// Gets `configurable`.
    pub fn is_configurable(&self) -> (r: bool)
        ensures
            r == self.configurable,
    {
        return self.configurable;
    }

    /// Gets `description`.
    pub fn get_description(&self) -> (r: String)
        ensures
            r@ == self.description@,
    {
        return self.description.clone();
    }

    /// Gets `command_name`.
    pub fn get_command_name(&self) -> (r: String)
        ensures
            r@ == self.command_name@,
    {
        return self.command_name.clone();
    }

    /// Gets `hex_code`.
    pub fn get_hex_code(&self) -> (r: String)
        ensures
            r@ == self.hex_code@,
    {
        return self.hex_code.clone();
    }
}

impl Clone for DownlinkPayload {
    /// Clones the command description, keeping every field.
    fn clone(&self) -> (r: Self)
        ensures
            r == *self,
    {
        DownlinkPayload {
            command_name: self.command_name.clone(),
            description: self.description.clone(),
            configurable: self.configurable,
            hex_code: self.hex_code.clone(),
        }
    }
}

/// The structure of the downlink messages of a device profile: a hexadecimal
/// message header, whether the message carries a byte holding the length of
/// the rest of the message, and the list of commands that can be sent.
pub struct Downlink {
    pub hex_pre_byte: String,
    pub combined_work_load_count: bool,
    pub payloads: Vec<DownlinkPayload>,
}

impl Downlink {
    /// Creates a new downlink description.
    pub fn new(hex_pre_byte: &str, combined_work_load_count: bool, payloads: Vec<DownlinkPayload>)
        -> (r: Self)
        ensures
            r.hex_pre_byte@ == hex_pre_byte@,
            r.combined_work_load_count == combined_work_load_count,
            r.payloads == payloads,
    {
        Downlink { hex_pre_byte: hex_pre_byte.to_owned(), combined_work_load_count, payloads }
    }

    /// Gets the commands.
    pub fn get_payloads(&self) -> (r: &Vec<DownlinkPayload>)
        ensures
            r == &self.payloads,
    {
        return &self.payloads;
    }

    /// Adds a new command built from its parts.
    pub fn add_new_payload(
        &mut self,
        command_name: &str,
        description: &str,
        configurable: bool,
        hex_code: &str,
    )
        ensures
            final(self).payloads@.len() == old(self).payloads@.len() + 1,
            final(self).payloads@.last().command_name@ == command_name@,
            final(self).payloads@.last().description@ == description@,
            final(self).payloads@.last().configurable == configurable,
            final(self).payloads@.last().hex_code@ == hex_code@,
            forall|i: int|
                0 <= i < old(self).payloads@.len() ==> final(self).payloads@[i] == old(
                    self,
                ).payloads@[i],
            final(self).hex_pre_byte == old(self).hex_pre_byte,
            final(self).combined_work_load_count == old(self).combined_work_load_count,
    {
        self.payloads.push(DownlinkPayload::new(command_name, description, configurable, hex_code));
    }

    /// Adds an already existing command.
    pub fn add_payload(&mut self, downlink_payload: DownlinkPayload)
        ensures
            final(self).payloads@ == old(self).payloads@.push(downlink_payload),
            final(self).hex_pre_byte == old(self).hex_pre_byte,
            final(self).combined_work_load_count == old(self).combined_work_load_count,
    {
        self.payloads.push(downlink_payload);
    }

    /// Gets `hex_pre_byte`.
    pub fn get_hex_pre_byte(&self) -> (r: String)
        ensures
            r@ == self.hex_pre_byte@,
    {
        return self.hex_pre_byte.clone();
    }

    /// Gets `combined_work_load_count`.
    pub fn get_combined_work_load_count(&self) -> (r: bool)
        ensures
            r == self.combined_work_load_count,
    {
        return self.combined_work_load_count;
    }
}

/// The representation of a device profile: its id on the management server
/// and, when loaded, the uplink field list and the downlink command set.
pub struct DeviceProfile {
    pub id: String,
    pub uplink: Option<Uplink>,
    pub downlink: Option<Downlink>,
}

impl DeviceProfile {
    /// Creates a new device profile.
    pub fn new(id: &str, uplink: Option<Uplink>, downlink: Option<Downlink>) -> (r: DeviceProfile)
        ensures
            r.id@ == id@,
            r.uplink == uplink,
            r.downlink == downlink,
    {
        return DeviceProfile { id: id.to_owned(), uplink, downlink };
    }

    /// Gets a copy of the downlink description.
    pub fn get_downlink(&self) -> (r: Option<Downlink>)
        ensures
            r is Some <==> self.downlink is Some,
            r is Some ==> r->0.hex_pre_byte == self.downlink->0.hex_pre_byte
                && r->0.combined_work_load_count == self.downlink->0.combined_work_load_count
                && r->0.payloads@ == self.downlink->0.payloads@,
    {
        match &self.downlink {
            Some(d) => {
                let ps = d.payloads.clone();
                proof {
                    assert forall|i: int| 0 <= i < d.payloads@.len() implies ps@[i]
                        == d.payloads@[i] by {
                        assert(vstd::pervasive::cloned::<DownlinkPayload>(
                            d.payloads[i],
                            ps[i],
                        ));
                    }
                    assert(ps@ =~= d.payloads@);
                }
                Some(
                    Downlink {
                        hex_pre_byte: d.hex_pre_byte.clone(),
                        combined_work_load_count: d.combined_work_load_count,
                        payloads: ps,
                    },
                )
            },
            None => None,
        }
    }

    /// Gets a copy of the uplink field list.
    pub fn get_uplink(&self) -> (r: Option<Uplink>)
        ensures
            r is Some <==> self.uplink is Some,
            r is Some ==> r->0.payloads@ == self.uplink->0.payloads@,
    {
        match &self.uplink {
            Some(u) => {
                let ps = u.payloads.clone();
                proof {
                    assert forall|i: int| 0 <= i < u.payloads@.len() implies ps@[i]
                        == u.payloads@[i] by {
                        assert(vstd::pervasive::cloned::<String>(u.payloads[i], ps[i]));
                    }
                    assert(ps@ =~= u.payloads@);
                }
                Some(Uplink { payloads: ps })
            },
            None => None,
        }
    }

    /// Replaces the uplink field list.
    pub fn set_uplink(&mut self, uplink: Option<Uplink>)
        ensures
            final(self).uplink == uplink,
            final(self).id == old(self).id,
            final(self).downlink == old(self).downlink,
    {
        self.uplink = uplink;
    }

    /// Replaces the downlink description.
    pub fn set_downlink(&mut self, downlink: Option<Downlink>)
        ensures
            final(self).downlink == downlink,
            final(self).id == old(self).id,
            final(self).uplink == old(self).uplink,
    {
        self.downlink = downlink;
    }
}

/// Manages the loaded device profiles.
pub struct DeviceProfileContainer {
    pub device_profiles: Vec<DeviceProfile>,
}

impl DeviceProfileContainer {
    /// Creates a new, empty device profile container.
    pub fn new() -> (r: Self)
        ensures
            r.device_profiles@.len() == 0,
    {
        return DeviceProfileContainer { device_profiles: Vec::new() };
    }

    /// Adds a device profile to the container.
    pub fn add_device_profile(&mut self, device_profile: DeviceProfile)
        ensures
            final(self).device_profiles@ == old(self).device_profiles@.push(device_profile),
    {
        self.device_profiles.push(device_profile);
    }

    /// Gets the index of the profile that carries a given profile id: the
    /// first profile whose id equals `dev_prof_id`, or an error when no
    /// profile carries that id.
    pub fn get_device_profile_index_via_dev_prof_id(&self, dev_prof_id: &str) -> (r: Result<
        usize,
        (),
    >)
        ensures
            r is Ok ==> spec_profile_index(self.device_profiles@, dev_prof_id@) == Ok::<
                int,
                (),
            >(r->Ok_0 as int),
            r is Err ==> spec_profile_index(self.device_profiles@, dev_prof_id@) is Err,
    {
        let ghost profs = self.device_profiles@;
        for i in 0..self.device_profiles.len()
            invariant
                forall|j: int| 0 <= j < i ==> profs[j].id@ != dev_prof_id@,
                profs == self.device_profiles@,
        {
            if str_eq(self.device_profiles[i].id.as_str(), dev_prof_id) {
                proof {
                    lemma_profile_index_found(profs, dev_prof_id@, i as int);
                }
                return Ok(i);
            }
        }
        proof {
            lemma_profile_index_missing(profs, dev_prof_id@);
        }
        return Err(());
    }

    /// Gets all device profiles.
    pub fn get_device_profiles(&self) -> (r: &Vec<DeviceProfile>)
        ensures
            r == &self.device_profiles,
    {
        return &self.device_profiles;
    }
}

/// The index of the first profile whose id reads `id`: `Ok` of that index,
/// or `Err` when no profile carries the id.
pub open spec fn spec_profile_index(profs: Seq<DeviceProfile>, id: Seq<char>) -> Result<int, ()>
    decreases profs.len(),
{
    if profs.len() == 0 {
        Err(())
    } else if profs[0].id@ == id {
        Ok(0int)
    } else {
        match spec_profile_index(profs.drop_first(), id) {
            Ok(i) => Ok(i + 1),
            Err(()) => Err(()),
        }
    }
}

proof fn lemma_profile_index_found(profs: Seq<DeviceProfile>, id: Seq<char>, i: int)
    requires
        0 <= i < profs.len(),
        profs[i].id@ == id,
        forall|j: int| 0 <= j < i ==> profs[j].id@ != id,
    ensures
        spec_profile_index(profs, id) == Ok::<int, ()>(i),
    decreases i,
{
    if i == 0 {
    } else {
        lemma_profile_index_found(profs.drop_first(), id, i - 1);
    }
}

/// A successful lookup points inside the list, at a profile carrying the id.
pub proof fn lemma_profile_index_ok_bounds(profs: Seq<DeviceProfile>, id: Seq<char>)
    ensures
        spec_profile_index(profs, id) matches Ok(i) ==> 0 <= i < profs.len() && profs[i].id@ == id,
    decreases profs.len(),
{
    if profs.len() > 0 && profs[0].id@ != id {
        lemma_profile_index_ok_bounds(profs.drop_first(), id);
        match spec_profile_index(profs.drop_first(), id) {
            Ok(i0) => {
                assert(profs[i0 + 1] == profs.drop_first()[i0]);
            },
            Err(()) => {},
        }
    }
}

proof fn lemma_profile_index_missing(profs: Seq<DeviceProfile>, id: Seq<char>)
    requires
        forall|j: int| 0 <= j < profs.len() ==> profs[j].id@ != id,
    ensures
        spec_profile_index(profs, id) == Err::<int, ()>(()),
    decreases profs.len(),
{
    if profs.len() > 0 {
        lemma_profile_index_missing(profs.drop_first(), id);
    }
}

/// The representation of a device: the remote attributes the engine reads.
/// `dev_eui` addresses the device and names its telemetry topic,
/// `application_id` names the application the device belongs to, and
/// `device_profile_id` points at the device's profile.
pub struct Device {
    pub dev_eui: String,
    pub application_id: i64,
    pub device_profile_id: String,
}

impl Device {
    /// Creates a new device from its remote attributes.
    pub fn new(dev_eui: &str, application_id: i64, device_profile_id: &str) -> (r: Self)
        ensures
            r.dev_eui@ == dev_eui@,
            r.application_id == application_id,
            r.device_profile_id@ == device_profile_id@,
    {
        return Device {
            dev_eui: dev_eui.to_owned(),
            application_id,
            device_profile_id: device_profile_id.to_owned(),
        };
    }

    /// Gets a copy of the device EUI.
    pub fn get_dev_eui(&self) -> (r: String)
        ensures
            r@ == self.dev_eui@,
    {
        return self.dev_eui.clone();
    }

    /// Gets the application id.
    pub fn get_application_id(&self) -> (r: i64)
        ensures
            r == self.application_id,
    {
        return self.application_id;
    }

    /// Gets a copy of the device profile id.
    pub fn get_device_profile_id(&self) -> (r: String)
        ensures
            r@ == self.device_profile_id@,
    {
        return self.device_profile_id.clone();
    }
}

impl Clone for Device {
    /// Clones the device, keeping every attribute.
    fn clone(&self) -> (r: Self)
        ensures
            r == *self,
    {
        Device {
            dev_eui: self.dev_eui.clone(),
            application_id: self.application_id,
            device_profile_id: self.device_profile_id.clone(),
        }
    }
}

/// Manages the loaded devices.
pub struct DeviceContainer {
    pub devices: Vec<Device>,
}

impl DeviceContainer {
    /// Creates a new, empty device container.
    pub fn new() -> (r: Self)
        ensures
            r.devices@.len() == 0,
    {
        return DeviceContainer { devices: Vec::new() };
    }

    /// Gets a copy of the device at a given index. An index beyond the end
    /// of the container is answered with an error.
    pub fn get_device(&self, index: usize) -> (r: Result<Device, ()>)
        requires
            index != self.devices@.len(),
        ensures
            index < self.devices@.len() ==> r is Ok && r->Ok_0.dev_eui
                == self.devices@[index as int].dev_eui && r->Ok_0.application_id
                == self.devices@[index as int].application_id && r->Ok_0.device_profile_id
                == self.devices@[index as int].device_profile_id,
            index > self.devices@.len() ==> r is Err,
    {
        if index > self.devices.len() {
            return Err(());
        }
        return Ok(self.devices[index].clone());
    }

    /// Adds a device.
    pub fn add_device(&mut self, device: Device)
        ensures
            final(self).devices@ == old(self).devices@.push(device),
    {
        self.devices.push(device);
    }

    /// Gets all devices.
    pub fn get_devices(&self) -> (r: &Vec<Device>)
        ensures
            r == &self.devices,
    {
        return &self.devices;
    }
}

} // verus!
