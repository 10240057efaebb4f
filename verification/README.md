# en16931

A Verus library for electronic invoices after EN-16931: the semantic model of an invoice,
its two XML bindings (UBL and CII), the profiles that stamp a document and forbid terms, and
the binding of a validator's findings to the model nodes of a checked document.

Every function of the library is verified by Verus against its `requires` / `ensures`
contract. The outside crates that do the work the library does not repeat (XML reading and
escaping, decimal parsing, base64, calendar, currency, country, unit, e-mail and URL checks)
are called behind small trusted wrappers whose contracts name or state their results. The
arithmetic on amounts (sums, products, roundings and quotients) is the library's own and
verified, on decimals with a 128-bit mantissa: an operation whose exact result does not fit
is outside its contract.

## Layout

- `src/model.rs`, `src/pricing.rs`, `src/vat.rs`, `src/values.rs`, `src/decimal.rs`: the model
  and its values, with the net amounts and roundings it computes.
- `src/invoice_type.rs`, `src/profile.rs`, `src/exemption_reason.rs`, `src/term.rs`: code lists.
- `src/namespace.rs`, `src/ubl.rs`, `src/cii.rs`, `src/path.rs`, `src/context.rs`,
  `src/location.rs`, `src/binding.rs`: namespaces, record-form paths and model contexts.
- `src/xml.rs`, `src/serializer.rs`, `src/ubl_write.rs`, `src/cii_write.rs`: the writing walks.
- `src/token.rs`, `src/parser.rs`, `src/reading.rs`, `src/ubl_read.rs`, `src/cii_read.rs`:
  the reading walks.
- `src/document.rs`, `src/format.rs`: documents of a binding and the check of a report.
- `src/laws.rs`: the properties that span several functions, stated and proved.
- `tests/`: the tests, run against the compiled library with the outside crates linked.
