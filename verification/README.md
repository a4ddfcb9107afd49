# opaque_enum

`#[opaque_enum]` turns a public enum into an opaque struct that holds a hidden
copy of the enum, so variants can change without breaking callers, and lets
`impl` blocks keep matching on `Self::Variant` as if the variants were public.

- `src/` is the verified library. It hands the annotated item's source text,
  piece by piece, to `syn` (`syntax`), keeps what `syn` gives back beside the
  text it was read from and assembles the item from it (`reading`), turns
  that into the description the expansion works on (`source`, `model`),
  parses the attribute's arguments (`args`), and writes the expansion as
  Rust source text (`enum_expand`, `impl_expand`, `expand`). Each of these
  functions is proved against a specification of what it produces; the
  calls into `syn` themselves are trusted, and claim only that what they
  return was read from the text they were given (and, for a generic
  parameter, its kind): which texts `syn` reads, and as what, is not
  specified, since it depends on the lexer that runs. `laws` states
  properties of the expansion as a whole. `OpaqueProject` is the trait the
  generated forwarding code calls.
- `app/` connects the library to the compiler: it hands over the attribute's
  tokens and the item's text, lexes the expansion back into tokens with
  `proc-macro2`, and points errors at the offending syntax.
- `tests/` runs the library on source texts and on described inputs, checks
  the whole generated text, and checks the behaviour of that code written
  out.
