use vstd::prelude::*;
use crate::board::BoardVariant;
use crate::device::{same_variant, variant_named, DeviceError, DeviceSettings};
use crate::serial::{SerialData, SerialSettings};

verus! {

/// The whole shared application state: the selected device's settings, the
/// selected board and the serial link.
pub struct AppData<P, D> {
    pub board_settings: Option<DeviceSettings>,
    pub board_variant: Option<BoardVariant>,
    pub serial: SerialData<P, D>,
}

/// `r` is the error for the unknown variant `name`.
pub open spec fn unknown_variant(r: Result<(), DeviceError>, name: Seq<char>) -> bool {
    match r {
        Err(DeviceError::UnknownVariant(n)) => n@ == name,
        _ => false,
    }
}

impl<P, D> AppData<P, D> {
    /// Nothing selected, and a disconnected link with the given settings.
    pub fn new(settings: SerialSettings) -> (r: Self)
        ensures
            r.board_settings is None,
            r.board_variant is None,
            r.serial@.port is None,
            r.serial@.log.len() == 0,
            r.serial.settings == settings,
            r.serial.protocol is None,
    {
        AppData { board_settings: None, board_variant: None, serial: SerialData::new(settings) }
    }

    /// The selected device's settings.
    pub fn get_device_settings(&self) -> (r: Result<DeviceSettings, DeviceError>)
        ensures
            match self.board_settings {
                Some(s) => r == Ok::<DeviceSettings, DeviceError>(s),
                None => r == Err::<DeviceSettings, DeviceError>(DeviceError::NoDeviceSelected),
            },
    {
        match self.board_settings {
            Some(s) => Ok(s),
            None => Err(DeviceError::NoDeviceSelected),
        }
    }

    /// Replaces the selected device's payload. The payload must carry the
    /// selected variant's tag; otherwise nothing changes.
    pub fn set_device_settings(&mut self, settings: DeviceSettings) -> (r: Result<(), DeviceError>)
        ensures
            match old(self).board_settings {
                None => r == Err::<(), DeviceError>(DeviceError::NoDeviceSelected)
                    && final(self).board_settings is None,
                Some(cur) => if same_variant(cur, settings) {
                    r is Ok && final(self).board_settings == Some(settings)
                } else {
                    r == Err::<(), DeviceError>(DeviceError::VariantMismatch)
                        && final(self).board_settings == old(self).board_settings
                },
            },
            final(self).board_variant == old(self).board_variant,
            final(self).serial == old(self).serial,
    {
        match self.board_settings {
            None => Err(DeviceError::NoDeviceSelected),
            Some(cur) => {
                if cur.is_same_variant(&settings) {
                    self.board_settings = Some(settings);
                    Ok(())
                } else {
                    Err(DeviceError::VariantMismatch)
                }
            },
        }
    }

    /// Selects the variant called `device`, resetting its payload to the
    /// defaults. An unknown name is refused and nothing changes.
    pub fn set_device_variant(&mut self, device: &str) -> (r: Result<(), DeviceError>)
        ensures
            match variant_named(device@) {
                Some(s) => r is Ok && final(self).board_settings == Some(s),
                None => unknown_variant(r, device@) && final(self).board_settings
                    == old(self).board_settings,
            },
            final(self).board_variant == old(self).board_variant,
            final(self).serial == old(self).serial,
    {
        match DeviceSettings::for_variant(device) {
            Some(s) => {
                self.board_settings = Some(s);
                Ok(())
            },
            None => Err(DeviceError::UnknownVariant(device.to_owned())),
        }
    }

    /// Sending settings to the device: refused with no port open, and not
    /// available otherwise.
    pub fn upload_device_settings(&self, settings: DeviceSettings) -> (r: Result<(), DeviceError>)
        ensures
            self.serial@.port is None ==> r == Err::<(), DeviceError>(DeviceError::NoDeviceConnected),
            self.serial@.port is Some ==> r == Err::<(), DeviceError>(DeviceError::NotImplemented),
    {
        if !self.serial.is_connected() {
            return Err(DeviceError::NoDeviceConnected);
        }
        Err(DeviceError::NotImplemented)
    }

    /// Reading settings from the device: refused with no port open, and not
    /// available otherwise.
    pub fn download_device_settings(&self) -> (r: Result<DeviceSettings, DeviceError>)
        ensures
            self.serial@.port is None ==> r == Err::<DeviceSettings, DeviceError>(
                DeviceError::NoDeviceConnected,
            ),
            self.serial@.port is Some ==> r == Err::<DeviceSettings, DeviceError>(
                DeviceError::NotImplemented,
            ),
    {
        if !self.serial.is_connected() {
            return Err(DeviceError::NoDeviceConnected);
        }
        Err(DeviceError::NotImplemented)
    }

    pub fn set_board_variant(&mut self, variant: BoardVariant)
        ensures
            final(self).board_variant == Some(variant),
            final(self).board_settings == old(self).board_settings,
            final(self).serial == old(self).serial,
    {
        self.board_variant = Some(variant);
    }

    /// The selected board, or `NoDeviceSelected`.
    pub fn get_board_variant(&self) -> (r: Result<BoardVariant, DeviceError>)
        ensures
            match self.board_variant {
                Some(v) => r == Ok::<BoardVariant, DeviceError>(v),
                None => r == Err::<BoardVariant, DeviceError>(DeviceError::NoDeviceSelected),
            },
    {
        match self.board_variant {
            Some(v) => Ok(v),
            None => Err(DeviceError::NoDeviceSelected),
        }
    }

    pub fn get_serial_settings(&self) -> (r: SerialSettings)
        ensures
            r == self.serial.settings,
    {
        self.serial.settings
    }

    /// Replaces the serial settings; an open port keeps running as it is
    /// until it is next opened.
    pub fn set_serial_settings(&mut self, settings: SerialSettings)
        ensures
            final(self).serial.settings == settings,
            final(self).serial.connected_port == old(self).serial.connected_port,
            final(self).serial.content == old(self).serial.content,
            final(self).serial.protocol == old(self).serial.protocol,
            final(self).board_settings == old(self).board_settings,
            final(self).board_variant == old(self).board_variant,
    {
        self.serial.settings = settings;
    }
}

} // verus!
