//! Verified core of an image printing library for Windows printer devices:
//! the byte collection that drains a stream into a buffer, the bookkeeping of
//! the COM apartment guard, and the page decisions of the image printer
//! (which frames are printed, and when a page is turned by 90 degrees).

pub mod printer;
pub mod utils;
