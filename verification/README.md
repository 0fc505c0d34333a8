# svc_texture

A texture build service library: it describes texture formats and layouts, generates mip
chains, encodes them into block-compressed DDS files (BC1, BC3, BC6H, BC7), describes DDS
surfaces it reads back, checks texture manifests, names content by identity (Base58 text of
its SHA-256 digest) and cuts stored content into the pieces in which it is sent.

The library in `src/` is written in Verus: every function carries a contract, and the laws
that relate functions (code round trips of the schema enums, the bit length of mip counts,
the layout of encoded chains, the formats that encoded files declare, content that is cut
into pieces and uploaded back unchanged, ...) are stated as proof functions.

- `src/schema.rs`: texture types and formats, their codes and names.
- `src/utilities.rs`: format descriptions, texture layouts, identities.
- `src/process/`: mip chains, block encoding into DDS files, DDS descriptions, the
  processing manifest.
- `src/compile/`: the build manifest and the texture build of the client.
- `src/storage.rs`: stored content and its transfer in pieces.

`app/` holds the edges that the library leaves to ordinary Rust: files and directories,
TOML manifests, reading DDS files, the FlatBuffers tables of the schema, logging and the
command line of the build client.

Calls into `sha2`, `smush`, `twox-hash`, `byteorder`, `image`, `ddsfile` and `intel_tex`
stand in `src/` behind small functions whose contracts state what those crates do.
