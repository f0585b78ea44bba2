use vstd::prelude::*;

use crate::error::DriverError;
use vstd::string::StrSliceExecFns;
use vstd::string::StringExecFns;

verus! {

/// Device-type sentinel for a driver whose device class is unknown; the
/// default when a builder never sets a device type.
pub const FILE_DEVICE_UNKNOWN: u16 = 0x22;

/// A validated, immutable description of one driver instance.
///
/// `build` is the only constructor. Callers treat a config as read-only once
/// built. When the driver image was supplied as raw bytes, `staged_image`
/// holds the bytes that the host must write to `image_path` (overwriting any
/// existing file) before the config is used; a failure of that write is a
/// [`DriverError::StagingError`]. When the image was supplied as a path,
/// `staged_image` is `None` and `image_path` is that path unchanged.
#[derive(Debug, Clone)]
pub struct DriverConfig {
    /// Unique service name; also the suffix of the device's symbolic path.
    pub service_name: String,
    /// Human-readable display name of the service.
    pub service_description: String,
    /// Device class of the driver, as used in its control codes.
    pub device_type: u16,
    /// Filesystem path of the driver image the service is registered with.
    pub image_path: String,
    /// Image bytes still to be written to `image_path`, if raw bytes were given.
    pub staged_image: Option<Vec<u8>>,
}

impl DriverConfig {
    /// A valid config names its service and its driver image.
    pub open spec fn wf(&self) -> bool {
        &&& self.service_name@.len() > 0
        &&& self.image_path@.len() > 0
    }
}

/// Accumulates the fields of a [`DriverConfig`] and validates them in `build`.
///
/// The driver image is given either as a filesystem path or as raw bytes;
/// when both are set, the bytes win and are staged.
#[derive(Debug, Clone)]
pub struct DriverBuilder {
    /// Service name; empty means unset.
    pub device_id: String,
    /// Display name of the service.
    pub device_description: String,
    /// Device class; defaults to [`FILE_DEVICE_UNKNOWN`].
    pub device_type: u16,
    /// Path to the driver image; empty means unset.
    pub driver_path: String,
    /// Raw bytes of the driver image; empty means unset.
    pub driver_bin: Vec<u8>,
}

/// The name of the staging file for a service: `<service_name>.sys`.
pub fn staging_file_name(service_name: &str) -> (r: String)
    ensures
        r@ == service_name@ + ".sys"@,
{
    let mut name = String::from_str(service_name);
    name.append(".sys");
    name
}

impl DriverBuilder {
    /// An empty builder: no name, no description, no image, unknown device type.
    pub fn new() -> (r: DriverBuilder)
        ensures
            r.device_id@.len() == 0,
            r.device_description@.len() == 0,
            r.device_type == FILE_DEVICE_UNKNOWN,
            r.driver_path@.len() == 0,
            r.driver_bin@.len() == 0,
    {
        proof {
            reveal_strlit("");
        }
        DriverBuilder {
            device_id: String::from_str(""),
            device_description: String::from_str(""),
            device_type: FILE_DEVICE_UNKNOWN,
            driver_path: String::from_str(""),
            driver_bin: Vec::new(),
        }
    }

    /// Sets the service name.
    pub fn set_device_id(self, device_id: String) -> (r: DriverBuilder)
        ensures
            r == (DriverBuilder { device_id, ..self }),
    {
        DriverBuilder { device_id, ..self }
    }

    /// Sets the display name of the service.
    pub fn set_device_description(self, device_description: String) -> (r: DriverBuilder)
        ensures
            r == (DriverBuilder { device_description, ..self }),
    {
        DriverBuilder { device_description, ..self }
    }

    /// Sets the device class.
    pub fn set_device_type(self, device_type: u16) -> (r: DriverBuilder)
        ensures
            r == (DriverBuilder { device_type, ..self }),
    {
        DriverBuilder { device_type, ..self }
    }

    /// Sets the path to the driver image on disk.
    pub fn set_driver_path(self, driver_path: String) -> (r: DriverBuilder)
        ensures
            r == (DriverBuilder { driver_path, ..self }),
    {
        DriverBuilder { driver_path, ..self }
    }

    /// Sets the raw bytes of the driver image.
    pub fn set_driver_bin(self, driver_bin: Vec<u8>) -> (r: DriverBuilder)
        ensures
            r == (DriverBuilder { driver_bin, ..self }),
    {
        DriverBuilder { driver_bin, ..self }
    }

    /// Validates the builder and assembles the config.
    ///
    /// Fails with `MissingIdentifier` when the service name is empty, and with
    /// `MissingImage` when neither an image path nor image bytes were set.
    /// When image bytes were set they take precedence over a path: the config's
    /// image path becomes `<staging_dir>\<service_name>.sys` and the bytes are
    /// returned in `staged_image` for the host to persist there. `staging_dir`
    /// is the platform's temporary directory, given without a trailing
    /// separator. When only a path was set, it is taken over unchanged.
    pub fn build(self, staging_dir: &str) -> (r: Result<DriverConfig, DriverError>)
        ensures
            self.device_id@.len() == 0 ==> r == Err::<DriverConfig, DriverError>(
                DriverError::MissingIdentifier,
            ),
            self.device_id@.len() > 0 && self.driver_bin@.len() == 0 && self.driver_path@.len()
                == 0 ==> r == Err::<DriverConfig, DriverError>(DriverError::MissingImage),
            self.device_id@.len() > 0 && self.driver_bin@.len() > 0 ==> (r matches Ok(c) && {
                &&& c.service_name@ == self.device_id@
                &&& c.service_description@ == self.device_description@
                &&& c.device_type == self.device_type
                &&& c.image_path@ == staging_dir@ + "\\"@ + self.device_id@ + ".sys"@
                &&& c.staged_image matches Some(b) && b@ == self.driver_bin@
            }),
            self.device_id@.len() > 0 && self.driver_bin@.len() == 0 && self.driver_path@.len()
                > 0 ==> (r matches Ok(c) && {
                &&& c.service_name@ == self.device_id@
                &&& c.service_description@ == self.device_description@
                &&& c.device_type == self.device_type
                &&& c.image_path@ == self.driver_path@
                &&& c.staged_image is None
            }),
            r matches Ok(c) ==> c.wf(),
    {
        if self.device_id.as_str().unicode_len() == 0 {
            return Err(DriverError::MissingIdentifier);
        }
        if self.driver_bin.len() == 0 && self.driver_path.as_str().unicode_len() == 0 {
            return Err(DriverError::MissingImage);
        }
        if self.driver_bin.len() > 0 {
            let mut image_path = String::from_str(staging_dir);
            image_path.append("\\");
            image_path.append(self.device_id.as_str());
            image_path.append(".sys");
            proof {
                assert(image_path@ =~= staging_dir@ + "\\"@ + self.device_id@ + ".sys"@);
            }
            Ok(
                DriverConfig {
                    service_name: self.device_id,
                    service_description: self.device_description,
                    device_type: self.device_type,
                    image_path,
                    staged_image: Some(self.driver_bin),
                },
            )
        } else {
            Ok(
                DriverConfig {
                    service_name: self.device_id,
                    service_description: self.device_description,
                    device_type: self.device_type,
                    image_path: self.driver_path,
                    staged_image: None,
                },
            )
        }
    }
}

} // verus!
