use winprint_ext::printer::image::{oriented_extent, print_driver_name, JobStep, Orientation};
use winprint_ext::printer::{ImagePrinter, PrinterDevice};
use Orientation::{Landscape, Portrait, Square};

fn null_device() -> PrinterDevice {
    let name = "Null Printer";
    PrinterDevice::new(name.to_string(), name.encode_utf16().collect())
}

#[test]
fn print_simple_tiff_document() {
    // A single-frame TIFF printed with the default options on the null device:
    // one page, not turned, then the document is closed.
    let device = null_device();
    let image = ImagePrinter::new(device);
    let mut job = image.begin_print(1);
    assert_eq!(job.next_step(), JobStep::RenderFrame(0));
    assert!(!job.page_rotation(Orientation::Landscape, Some(Orientation::Portrait)));
    assert!(!job.page_rotation(Orientation::Portrait, Some(Orientation::Landscape)));
    job.page_added();
    assert_eq!(job.next_step(), JobStep::Close);
    assert_eq!(job.next_step(), JobStep::Close);
}

#[test]
fn new_keeps_the_device() {
    let image = ImagePrinter::new(null_device());
    assert_eq!(image.printer().name(), "Null Printer");
    let expected: Vec<u16> = "Null Printer".encode_utf16().collect();
    assert_eq!(image.printer().os_name(), expected.as_slice());
}

#[test]
fn frames_are_handed_out_in_order_once() {
    let image = ImagePrinter::new(null_device());
    let mut job = image.begin_print_with_options(3, true);
    for i in 0..3 {
        assert_eq!(job.next_step(), JobStep::RenderFrame(i));
        job.page_added();
    }
    assert_eq!(job.next_step(), JobStep::Close);
}

#[test]
fn no_frames_means_closing_at_once() {
    let image = ImagePrinter::new(null_device());
    let mut job = image.begin_print_with_options(0, true);
    assert_eq!(job.next_step(), JobStep::Close);
}

#[test]
fn a_failed_frame_abandons_the_job() {
    let image = ImagePrinter::new(null_device());
    let mut job = image.begin_print(3);
    assert_eq!(job.next_step(), JobStep::RenderFrame(0));
    job.page_added();
    assert_eq!(job.next_step(), JobStep::RenderFrame(1));
    job.frame_failed();
    assert_eq!(job.next_step(), JobStep::Abandon);
    assert_eq!(job.next_step(), JobStep::Abandon);
}

#[test]
fn auto_rotation_turns_only_on_mismatch() {
    let image = ImagePrinter::new(null_device());
    let job = image.begin_print_with_options(1, true);
    assert!(job.page_rotation(Landscape, Some(Portrait)));
    assert!(job.page_rotation(Portrait, Some(Landscape)));
    assert!(!job.page_rotation(Landscape, Some(Landscape)));
    assert!(!job.page_rotation(Portrait, Some(Portrait)));
    // a square image or square paper gains nothing from turning
    assert!(!job.page_rotation(Square, Some(Landscape)));
    assert!(!job.page_rotation(Square, Some(Portrait)));
    assert!(!job.page_rotation(Landscape, Some(Square)));
    // paper unknown (no device context)
    assert!(!job.page_rotation(Landscape, None));
    assert!(!job.page_rotation(Portrait, None));
}

#[test]
fn default_print_never_rotates() {
    let image = ImagePrinter::new(null_device());
    let job = image.begin_print(2);
    assert!(!job.page_rotation(Orientation::Landscape, Some(Orientation::Portrait)));
    assert!(!job.page_rotation(Orientation::Portrait, Some(Orientation::Landscape)));
}

#[test]
fn device_name_is_zero_terminated() {
    let image = ImagePrinter::new(PrinterDevice::new("P".to_string(), vec![0x50, 0x31]));
    assert_eq!(image.device_name_wide(), vec![0x50u16, 0x31, 0]);
    let empty = ImagePrinter::new(PrinterDevice::new(String::new(), Vec::new()));
    assert_eq!(empty.device_name_wide(), vec![0u16]);
}

#[test]
fn print_driver_is_winspool() {
    let expected: Vec<u16> = "WINSPOOL\0".encode_utf16().collect();
    assert_eq!(print_driver_name(), expected);
}

#[test]
fn extent_is_swapped_when_turned() {
    assert_eq!(oriented_extent(800.0f64, 600.0f64, false), (800.0, 600.0));
    assert_eq!(oriented_extent(800.0f64, 600.0f64, true), (600.0, 800.0));
    assert_eq!(oriented_extent(3u32, 4u32, true), (4, 3));
}
