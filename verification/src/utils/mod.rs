/// Bookkeeping of the COM apartment initialisation.
pub mod com;
/// Collection of the bytes read from a seekable stream.
pub mod stream;
