# openmls_traits (verified parameter types)

The types that describe an MLS ciphersuite, written in Verus.

- `src/params.rs`: the AEAD, hash, signature and HPKE identifiers. Each is
  a code point; the known ones have names, any other is a `Custom` value
  (AEADs and hashes carry their sizes). `SignatureScheme::try_from(u16)`
  and the scheme's two-byte TLS encoding, whose decoder refuses schemes it
  does not name. Each type's stored (serde) variant, the named value at a
  stored position, and the lookup of a stored index or name.
- `src/ciphersuite.rs`: the table of built-in ciphersuites and custom
  ciphersuites with private-use code points (a type invariant keeps every
  `Ciphersuite` one or the other), lookup by code point, the variants that
  the serde encoding stores, and the two-byte TLS encoding;
  `VerifiableCiphersuite`, the code point as it arrives on the wire.
- `src/stored.rs`: the stored form all these enumerations share: a named
  value as a unit variant at its position, any other as `Custom` at index
  0xFFFF; the lookup of a variant by index, by name and by UTF-8 bytes.
- `src/grease.rs`: the GREASE values of RFC 9420, Section 13.5.
- `src/keys.rs`: HPKE ciphertexts, private keys and exported secrets, held in
  `tls_codec` byte vectors.
- `src/wire.rs`, `src/text.rs`: the calls into `tls_codec` and `core` that
  the codecs make, with the contracts they are trusted to meet.
- `src/laws.rs`: the properties that span functions (round trips of the
  code point, serde and TLS encodings; equality on the code point).
- `app/`: serde and TLS encodings, `Debug`, `Display` and `Ord`, on copies
  of the library's types; `app/coded.rs` drives serde from the library's
  stored variants and lookups.
