# winprint_ext (verified core)

Image printing for Windows printer devices, with its decisions proved by Verus.

- `src/` — the verified library:
  - `printer::device` — `PrinterDevice`, a device's display and system names.
  - `printer::image` — `ImagePrinter`, the print job that hands out the
    frames of an image one page at a time and closes or gives up the
    document, and the rule for turning a page by 90 degrees to fit the paper.
  - `utils::stream` — `StreamCollector`, which drains a stream of known
    size into a buffer, one read at a time.
  - `utils::com` — `ComInitializer`, which records whether COM has to be
    uninitialised.
- `app/` — the Windows side: COM initialisation, stream reads, decoding
  and drawing of the frames into a Direct2D print context, and the
  floating-point page geometry (scale, centring, transform matrix).
- `tests/` — tests of the library.
