/// Printer devices.
pub mod device;
/// Printing of images.
pub mod image;

pub use device::PrinterDevice;
pub use image::ImagePrinter;
