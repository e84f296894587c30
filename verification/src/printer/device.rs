use vstd::prelude::*;

verus! {

/// A printer device known to the system: its display name, and the name the
/// operating system knows it by, in UTF-16 code units.
pub struct PrinterDevice {
    name: String,
    os_name: Vec<u16>,
}

impl PrinterDevice {
    /// The display name of the device.
    pub closed spec fn spec_name(&self) -> Seq<char> {
        self.name@
    }

    /// The name the operating system knows the device by (UTF-16 code units,
    /// without terminator).
    pub closed spec fn spec_os_name(&self) -> Seq<u16> {
        self.os_name@
    }

    /// A device with the given display name and system name.
    pub fn new(name: String, os_name: Vec<u16>) -> (d: PrinterDevice)
        ensures
            d.spec_name() == name@,
            d.spec_os_name() == os_name@,
    {
        PrinterDevice { name, os_name }
    }

    /// The display name of the device.
    pub fn name(&self) -> (r: &str)
        ensures
            r@ == self.spec_name(),
    {
        self.name.as_str()
    }

    /// The name the operating system knows the device by.
    pub fn os_name(&self) -> (r: &[u16])
        ensures
            r@ == self.spec_os_name(),
    {
        self.os_name.as_slice()
    }
}

} // verus!
