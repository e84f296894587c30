use vstd::prelude::*;

use crate::printer::device::PrinterDevice;

verus! {

/// A printer that prints images. Multiple frames in a single image file will
/// be printed as separate pages.
pub struct ImagePrinter {
    printer: PrinterDevice,
}

/// The orientation of an image or of a sheet of paper.
#[derive(Clone, Copy, Debug, PartialEq, Eq, Structural)]
pub enum Orientation {
    /// Wider than high.
    Landscape,
    /// Higher than wide.
    Portrait,
    /// As wide as high.
    Square,
}

/// Whether a page is turned by 90 degrees: only when automatic rotation is
/// asked for, the paper's orientation is known, and one of the image and the
/// paper is in landscape and the other in portrait, so that turning the
/// image makes it fit the paper better.
///
/// `paper` is `None` when the paper's dimensions could not be queried from
/// the device.
pub open spec fn spec_page_rotated(
    auto_rotate: bool,
    image: Orientation,
    paper: Option<Orientation>,
) -> bool {
    auto_rotate && match paper {
        Some(p) => (image == Orientation::Landscape && p == Orientation::Portrait) || (image
            == Orientation::Portrait && p == Orientation::Landscape),
        None => false,
    }
}

/// With automatic rotation and paper in landscape or portrait, a printed
/// page of an image in landscape or portrait always has the orientation of
/// the paper: the image is turned exactly when its orientation differs from
/// the paper's.
pub proof fn lemma_rotation_fits_paper(image: Orientation, paper: Orientation)
    requires
        image != Orientation::Square,
        paper != Orientation::Square,
    ensures
        spec_page_rotated(true, image, Some(paper)) == (image != paper),
{
}

/// A page is never turned without automatic rotation, nor when the paper's
/// orientation is unknown, nor when the image or the paper is square, nor
/// when the image already has the paper's orientation.
pub proof fn lemma_no_rotation_without_mismatch(
    auto_rotate: bool,
    image: Orientation,
    paper: Option<Orientation>,
)
    requires
        !auto_rotate || paper is None || image == Orientation::Square || paper == Some(
            Orientation::Square,
        ) || paper == Some(image),
    ensures
        !spec_page_rotated(auto_rotate, image, paper),
{
}

/// What the printing of an image does next.
#[derive(Clone, Copy, Debug, PartialEq, Eq, Structural)]
pub enum JobStep {
    /// Render this frame of the image and add it to the document as a page.
    RenderFrame(u32),
    /// Every frame was added as a page: close the document and wait for it.
    Close,
    /// A frame could not be rendered or added: give the job up without
    /// closing it, keeping the pages added before.
    Abandon,
}

/// The progress of printing the frames of one image: frames are rendered
/// one after another, each on a page of its own, then the document is
/// closed. A frame that fails ends the job: no later frame is rendered and
/// the document is not closed.
pub struct ImagePrintJob {
    page_count: u32,
    next_frame: u32,
    pages_added: u32,
    rendering: bool,
    failed: bool,
    auto_rotate: bool,
}

/// The UTF-16 name of the print driver that device contexts are created
/// for, with its terminating zero: "WINSPOOL".
pub open spec fn spec_print_driver_name() -> Seq<u16> {
    seq![0x57u16, 0x49u16, 0x4Eu16, 0x53u16, 0x50u16, 0x4Fu16, 0x4Fu16, 0x4Cu16, 0u16]
}

/// The print driver name that device contexts are created for.
pub fn print_driver_name() -> (r: Vec<u16>)
    ensures
        r@ == spec_print_driver_name(),
{
    let mut r: Vec<u16> = Vec::new();
    r.push(0x57u16);  // 'W'
    r.push(0x49u16);  // 'I'
    r.push(0x4Eu16);  // 'N'
    r.push(0x53u16);  // 'S'
    r.push(0x50u16);  // 'P'
    r.push(0x4Fu16);  // 'O'
    r.push(0x4Fu16);  // 'O'
    r.push(0x4Cu16);  // 'L'
    r.push(0u16);
    assert(r@ =~= spec_print_driver_name());
    r
}

/// The extent of an image of `width` by `height` once placed on the page:
/// the two are swapped when the page is turned by 90 degrees.
pub fn oriented_extent<T: Copy>(width: T, height: T, rotated: bool) -> (r: (T, T))
    ensures
        r == (if rotated { (height, width) } else { (width, height) }),
{
    if rotated {
        (height, width)
    } else {
        (width, height)
    }
}

impl ImagePrintJob {
    #[verifier::type_invariant]
    spec fn inv(self) -> bool {
        &&& self.next_frame <= self.page_count
        &&& self.pages_added <= self.next_frame
        &&& self.rendering ==> !self.failed && self.pages_added + 1 == self.next_frame
        &&& self.failed ==> self.pages_added + 1 == self.next_frame
        &&& !self.rendering && !self.failed ==> self.pages_added == self.next_frame
    }

    /// Number of frames of the image.
    pub closed spec fn page_count(&self) -> nat {
        self.page_count as nat
    }

    /// Number of frames handed out for rendering so far.
    pub closed spec fn frames_started(&self) -> nat {
        self.next_frame as nat
    }

    /// Number of frames added to the document as pages.
    pub closed spec fn pages_added(&self) -> nat {
        self.pages_added as nat
    }

    /// Whether a frame was handed out and its outcome is not known yet.
    pub closed spec fn rendering(&self) -> bool {
        self.rendering
    }

    /// Whether a frame failed.
    pub closed spec fn failed(&self) -> bool {
        self.failed
    }

    /// Whether pages may be turned to fit the paper.
    pub closed spec fn auto_rotate(&self) -> bool {
        self.auto_rotate
    }

    /// The step that comes next when no frame is being rendered.
    pub open spec fn spec_next_step(&self) -> JobStep {
        if self.failed() {
            JobStep::Abandon
        } else if self.frames_started() < self.page_count() {
            JobStep::RenderFrame(self.frames_started() as u32)
        } else {
            JobStep::Close
        }
    }

    /// What to do next: render the next frame (frames are handed out in
    /// order, each once), close the document once every frame was added as
    /// a page, or give the job up after a failed frame.
    pub fn next_step(&mut self) -> (r: JobStep)
        requires
            !old(self).rendering(),
        ensures
            r == old(self).spec_next_step(),
            final(self).page_count() == old(self).page_count(),
            final(self).auto_rotate() == old(self).auto_rotate(),
            final(self).pages_added() == old(self).pages_added(),
            final(self).failed() == old(self).failed(),
            r matches JobStep::RenderFrame(i) ==> final(self).frames_started() == i + 1
                && final(self).rendering(),
            !(r is RenderFrame) ==> final(self).frames_started() == old(self).frames_started()
                && !final(self).rendering(),
            r is Close ==> old(self).pages_added() == old(self).page_count() && !old(self).failed(),
            r is Abandon ==> old(self).pages_added() + 1 == old(self).frames_started(),
    {
        proof {
            use_type_invariant(&*self);
        }
        if self.failed {
            JobStep::Abandon
        } else if self.next_frame < self.page_count {
            let i = self.next_frame;
            *self = ImagePrintJob {
                page_count: self.page_count,
                next_frame: i + 1,
                pages_added: self.pages_added,
                rendering: true,
                failed: false,
                auto_rotate: self.auto_rotate,
            };
            JobStep::RenderFrame(i)
        } else {
            JobStep::Close
        }
    }

    /// The frame being rendered was added to the document as a page.
    pub fn page_added(&mut self)
        requires
            old(self).rendering(),
        ensures
            final(self).page_count() == old(self).page_count(),
            final(self).auto_rotate() == old(self).auto_rotate(),
            final(self).frames_started() == old(self).frames_started(),
            final(self).pages_added() == old(self).pages_added() + 1,
            !final(self).rendering(),
            !final(self).failed(),
    {
        proof {
            use_type_invariant(&*self);
        }
        *self = ImagePrintJob {
            page_count: self.page_count,
            next_frame: self.next_frame,
            pages_added: self.pages_added + 1,
            rendering: false,
            failed: false,
            auto_rotate: self.auto_rotate,
        };
    }

    /// The frame being rendered failed: the job is given up, and the pages
    /// added before stay in the document.
    pub fn frame_failed(&mut self)
        requires
            old(self).rendering(),
        ensures
            final(self).page_count() == old(self).page_count(),
            final(self).auto_rotate() == old(self).auto_rotate(),
            final(self).frames_started() == old(self).frames_started(),
            final(self).pages_added() == old(self).pages_added(),
            !final(self).rendering(),
            final(self).failed(),
    {
        proof {
            use_type_invariant(&*self);
        }
        *self = ImagePrintJob {
            page_count: self.page_count,
            next_frame: self.next_frame,
            pages_added: self.pages_added,
            rendering: false,
            failed: true,
            auto_rotate: self.auto_rotate,
        };
    }

    /// Whether the page of a frame is turned by 90 degrees, given the
    /// orientation of the frame and, when the device reported it, that of
    /// the paper.
    pub fn page_rotation(&self, image: Orientation, paper: Option<Orientation>) -> (r: bool)
        ensures
            r == spec_page_rotated(self.auto_rotate(), image, paper),
    {
        if !self.auto_rotate {
            return false;
        }
        match (image, paper) {
            (Orientation::Landscape, Some(Orientation::Portrait)) => true,
            (Orientation::Portrait, Some(Orientation::Landscape)) => true,
            _ => false,
        }
    }
}

impl ImagePrinter {
    /// The device this printer prints to.
    pub closed spec fn device(&self) -> PrinterDevice {
        self.printer
    }

    /// Create a new [`ImagePrinter`] for the given printer device.
    pub fn new(printer: PrinterDevice) -> (p: Self)
        ensures
            p.device() == printer,
    {
        Self { printer }
    }

    /// The device this printer prints to.
    pub fn printer(&self) -> (d: &PrinterDevice)
        ensures
            *d == self.device(),
    {
        &self.printer
    }

    /// The system name of the device as a zero-terminated UTF-16 string,
    /// as device contexts are created for.
    pub fn device_name_wide(&self) -> (r: Vec<u16>)
        ensures
            r@ == self.device().spec_os_name().push(0u16),
    {
        let name = self.printer.os_name();
        let mut r: Vec<u16> = Vec::new();
        let mut i: usize = 0;
        while i < name.len()
            invariant
                i <= name@.len(),
                r@ == name@.subrange(0, i as int),
            decreases name@.len() - i,
        {
            r.push(name[i]);
            i = i + 1;
            assert(r@ =~= name@.subrange(0, i as int));
        }
        assert(name@.subrange(0, name@.len() as int) =~= name@);
        r.push(0u16);
        r
    }

    /// Starts printing an image of `page_count` frames with options: when
    /// `auto_rotate` is true, a page is turned by 90 degrees where one of the
    /// image and the paper is in landscape and the other in portrait.
    pub fn begin_print_with_options(&self, page_count: u32, auto_rotate: bool) -> (j: ImagePrintJob)
        ensures
            j.page_count() == page_count,
            j.frames_started() == 0,
            j.pages_added() == 0,
            !j.rendering(),
            !j.failed(),
            j.auto_rotate() == auto_rotate,
    {
        ImagePrintJob {
            page_count,
            next_frame: 0,
            pages_added: 0,
            rendering: false,
            failed: false,
            auto_rotate,
        }
    }

    /// Starts printing an image of `page_count` frames with the default
    /// options: pages are never turned.
    pub fn begin_print(&self, page_count: u32) -> (j: ImagePrintJob)
        ensures
            j.page_count() == page_count,
            j.frames_started() == 0,
            j.pages_added() == 0,
            !j.rendering(),
            !j.failed(),
            !j.auto_rotate(),
    {
        self.begin_print_with_options(page_count, false)
    }
}

} // verus!
