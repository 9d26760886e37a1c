# leptess

Bindings to the Tesseract OCR engine, in two parts.

- `src/` is the verified library (Verus): the conversions between the
  library's enums and the numbers of the C API, the outcome of
  initialisation, the reading of texts that Tesseract returns (UTF-8
  decoding), the checks on paths and names before they become C strings,
  the arguments of the PDF renderer, the decoding of page orientation, and
  the progress display shown during recognition.
- `app/` holds the handles to the C libraries (`TessApi`, `Monitor`,
  `PDFRenderer`, the Leptonica objects), which make the unsafe calls and
  hand plain values to the library.
