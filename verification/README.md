# ESP-IDF error codes, verified

A raw ESP-IDF status code (`esp_err_t`) becomes an `IdfError` only when it is
one of the known error codes; `0` (`ESP_OK`) and unknown codes are refused with
an `IdfErrorError` that says which. Every `IdfError` has a symbolic name and a
description, and neither lookup can fail.

- `src/codes.rs`: the table of codes, names and descriptions, its lookups, and
  the laws of the table (the known codes are exactly those listed, the list
  ascends, each description begins with its bracketed name, names have the
  shape of error names, and different codes have different names and
  descriptions).
- `src/error.rs`: `IdfError` (with a type invariant: its code is known),
  `NonZeroI32` (with a type invariant: it is not zero), `IdfErrorError`, the conversion from `esp_err_t` and the error texts.
- `src/decimal.rs`: the decimal text of an `i32`, used in the error texts.
- `app/lib.rs`: copies of the two types that carry `Display` and `Debug`.
