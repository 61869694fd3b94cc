//! The stored (serde) encodings of ciphersuites and parameter types are part
//! of the storage format: a named value is a unit variant (its name in
//! self-describing formats, its position in compact ones), any other value
//! is the `Custom` variant at the fixed index 0xFFFF. The values are pinned
//! here so that stored data keeps loading. Tests cannot reach the app's
//! serde impls, so the same glue is written here on local wrappers, over the
//! library's functions.

use openmls_traits::{
    AeadType, Ciphersuite, CiphersuiteParams, HashType, HpkeKdfType, HpkeKemType,
    SignatureScheme, StoredVariant, VariantNameError, AEAD_VARIANT_NAMES, BUILTIN_COUNT,
    CUSTOM_VARIANT_INDEX, HASH_VARIANT_NAMES, HPKE_KDF_VARIANT_NAMES, HPKE_KEM_VARIANT_NAMES,
    SIGNATURE_SCHEME_VARIANT_NAMES, STORED_VARIANT_NAMES,
};
use core::marker::PhantomData;


use serde::de::{self, DeserializeOwned, Deserializer, EnumAccess, VariantAccess, Visitor};
use serde::ser::SerializeStruct;
use serde::{Serialize, Serializer};

/// A type stored as named unit variants or a `Custom` variant.
trait Coded: Sized {
    /// The type's name in the encoding.
    const TYPE_NAME: &'static str;
    /// The named variants in order, then `Custom`.
    const VARIANTS: &'static [&'static str];
    /// What the `Custom` variant carries.
    type Custom: Serialize + DeserializeOwned;

    /// The variant this value is stored as.
    fn stored_variant(&self) -> StoredVariant;
    /// The name of that variant.
    fn stored_name(&self) -> &'static str;
    /// The named value at a position.
    fn named(i: usize) -> Option<Self>;
    /// What the `Custom` variant carries for this value.
    fn custom_payload(&self) -> Self::Custom;
    /// The value that a `Custom` variant stands for, if it is valid.
    fn from_custom(c: Self::Custom) -> Result<Self, String>;
    /// The variant stored under an index.
    fn variant_from_u64(v: u64) -> Option<StoredVariant>;
    /// The variant stored under a name.
    fn variant_from_str(v: &str) -> Option<StoredVariant>;
    /// The variant whose name the bytes spell.
    fn variant_from_bytes(v: &[u8]) -> Result<StoredVariant, VariantNameError>;
}

fn serialize_coded<T: Coded, S: Serializer>(v: &T, s: S) -> Result<S::Ok, S::Error> {
    match v.stored_variant() {
        StoredVariant::Builtin(i) => s.serialize_unit_variant(T::TYPE_NAME, i as u32, v.stored_name()),
        StoredVariant::Custom => s.serialize_newtype_variant(
            T::TYPE_NAME,
            CUSTOM_VARIANT_INDEX,
            v.stored_name(),
            &v.custom_payload(),
        ),
    }
}

struct VariantOf<T>(StoredVariant, PhantomData<T>);

struct VariantVisitor<T>(PhantomData<T>);

impl<T: Coded> Visitor<'_> for VariantVisitor<T> {
    type Value = VariantOf<T>;

    fn expecting(&self, f: &mut core::fmt::Formatter) -> core::fmt::Result {
        f.write_str(&format!("a {} variant name or index", T::TYPE_NAME))
    }

    fn visit_u64<E: de::Error>(self, v: u64) -> Result<Self::Value, E> {
        T::variant_from_u64(v)
            .map(|s| VariantOf(s, PhantomData))
            .ok_or_else(|| E::invalid_value(de::Unexpected::Unsigned(v), &self))
    }

    fn visit_str<E: de::Error>(self, v: &str) -> Result<Self::Value, E> {
        T::variant_from_str(v)
            .map(|s| VariantOf(s, PhantomData))
            .ok_or_else(|| E::unknown_variant(v, T::VARIANTS))
    }

    fn visit_bytes<E: de::Error>(self, v: &[u8]) -> Result<Self::Value, E> {
        match T::variant_from_bytes(v) {
            Ok(s) => Ok(VariantOf(s, PhantomData)),
            Err(VariantNameError::UnknownName) => {
                Err(E::unknown_variant(&String::from_utf8_lossy(v), T::VARIANTS))
            }
            Err(VariantNameError::InvalidUtf8) => {
                Err(E::invalid_value(de::Unexpected::Bytes(v), &self))
            }
        }
    }
}

impl<'de, T: Coded> serde::Deserialize<'de> for VariantOf<T> {
    fn deserialize<D: Deserializer<'de>>(d: D) -> Result<Self, D::Error> {
        d.deserialize_identifier(VariantVisitor(PhantomData))
    }
}

struct EnumVisitor<T>(PhantomData<T>);

impl<'de, T: Coded> Visitor<'de> for EnumVisitor<T> {
    type Value = T;

    fn expecting(&self, f: &mut core::fmt::Formatter) -> core::fmt::Result {
        f.write_str(&format!("enum {}", T::TYPE_NAME))
    }

    fn visit_enum<A: EnumAccess<'de>>(self, data: A) -> Result<T, A::Error> {
        let (VariantOf(stored, _), variant) = data.variant::<VariantOf<T>>()?;
        match stored {
            StoredVariant::Builtin(i) => {
                variant.unit_variant()?;
                T::named(i).ok_or_else(|| de::Error::custom("unknown variant index"))
            }
            StoredVariant::Custom => {
                let payload = variant.newtype_variant::<T::Custom>()?;
                T::from_custom(payload).map_err(de::Error::custom)
            }
        }
    }
}

fn deserialize_coded<'de, T: Coded, D: Deserializer<'de>>(d: D) -> Result<T, D::Error> {
    d.deserialize_enum(T::TYPE_NAME, T::VARIANTS, EnumVisitor(PhantomData))
}


#[derive(Clone, Copy, PartialEq)]
struct Scheme(SignatureScheme);

impl core::fmt::Debug for Scheme {
    fn fmt(&self, f: &mut core::fmt::Formatter<'_>) -> core::fmt::Result {
        f.write_str(&format!("{:?}", self.0))
    }
}

impl Serialize for Scheme {
    fn serialize<S: Serializer>(&self, s: S) -> Result<S::Ok, S::Error> {
        serialize_coded(self, s)
    }
}

impl<'de> serde::Deserialize<'de> for Scheme {
    fn deserialize<D: serde::Deserializer<'de>>(d: D) -> Result<Self, D::Error> {
        deserialize_coded(d)
    }
}

impl Coded for Scheme {
    const TYPE_NAME: &'static str = "SignatureScheme";
    const VARIANTS: &'static [&'static str] = &SIGNATURE_SCHEME_VARIANT_NAMES;
    type Custom = u16;

    fn stored_variant(&self) -> StoredVariant {
        self.0.stored_variant()
    }

    fn stored_name(&self) -> &'static str {
        self.0.stored_name()
    }

    fn named(i: usize) -> Option<Self> {
        SignatureScheme::stored_named(i).map(Scheme)
    }

    fn custom_payload(&self) -> u16 {
        self.0.id()
    }

    fn from_custom(c: u16) -> Result<Self, String> {
        Ok(Scheme(SignatureScheme::new(c)))
    }

    fn variant_from_u64(v: u64) -> Option<StoredVariant> {
        SignatureScheme::stored_variant_from_u64(v)
    }

    fn variant_from_str(v: &str) -> Option<StoredVariant> {
        SignatureScheme::stored_variant_from_str(v)
    }

    fn variant_from_bytes(v: &[u8]) -> Result<StoredVariant, VariantNameError> {
        SignatureScheme::stored_variant_from_bytes(v)
    }
}

#[derive(Clone, Copy, PartialEq)]
struct Kem(HpkeKemType);

impl core::fmt::Debug for Kem {
    fn fmt(&self, f: &mut core::fmt::Formatter<'_>) -> core::fmt::Result {
        f.write_str(&format!("{:?}", self.0))
    }
}

impl Serialize for Kem {
    fn serialize<S: Serializer>(&self, s: S) -> Result<S::Ok, S::Error> {
        serialize_coded(self, s)
    }
}

impl<'de> serde::Deserialize<'de> for Kem {
    fn deserialize<D: serde::Deserializer<'de>>(d: D) -> Result<Self, D::Error> {
        deserialize_coded(d)
    }
}

impl Coded for Kem {
    const TYPE_NAME: &'static str = "HpkeKemType";
    const VARIANTS: &'static [&'static str] = &HPKE_KEM_VARIANT_NAMES;
    type Custom = u16;

    fn stored_variant(&self) -> StoredVariant {
        self.0.stored_variant()
    }

    fn stored_name(&self) -> &'static str {
        self.0.stored_name()
    }

    fn named(i: usize) -> Option<Self> {
        HpkeKemType::stored_named(i).map(Kem)
    }

    fn custom_payload(&self) -> u16 {
        self.0.id()
    }

    fn from_custom(c: u16) -> Result<Self, String> {
        Ok(Kem(HpkeKemType::new(c)))
    }

    fn variant_from_u64(v: u64) -> Option<StoredVariant> {
        HpkeKemType::stored_variant_from_u64(v)
    }

    fn variant_from_str(v: &str) -> Option<StoredVariant> {
        HpkeKemType::stored_variant_from_str(v)
    }

    fn variant_from_bytes(v: &[u8]) -> Result<StoredVariant, VariantNameError> {
        HpkeKemType::stored_variant_from_bytes(v)
    }
}

#[derive(Clone, Copy, PartialEq)]
struct Kdf(HpkeKdfType);

impl core::fmt::Debug for Kdf {
    fn fmt(&self, f: &mut core::fmt::Formatter<'_>) -> core::fmt::Result {
        f.write_str(&format!("{:?}", self.0))
    }
}

impl Serialize for Kdf {
    fn serialize<S: Serializer>(&self, s: S) -> Result<S::Ok, S::Error> {
        serialize_coded(self, s)
    }
}

impl<'de> serde::Deserialize<'de> for Kdf {
    fn deserialize<D: serde::Deserializer<'de>>(d: D) -> Result<Self, D::Error> {
        deserialize_coded(d)
    }
}

impl Coded for Kdf {
    const TYPE_NAME: &'static str = "HpkeKdfType";
    const VARIANTS: &'static [&'static str] = &HPKE_KDF_VARIANT_NAMES;
    type Custom = u16;

    fn stored_variant(&self) -> StoredVariant {
        self.0.stored_variant()
    }

    fn stored_name(&self) -> &'static str {
        self.0.stored_name()
    }

    fn named(i: usize) -> Option<Self> {
        HpkeKdfType::stored_named(i).map(Kdf)
    }

    fn custom_payload(&self) -> u16 {
        self.0.id()
    }

    fn from_custom(c: u16) -> Result<Self, String> {
        Ok(Kdf(HpkeKdfType::new(c)))
    }

    fn variant_from_u64(v: u64) -> Option<StoredVariant> {
        HpkeKdfType::stored_variant_from_u64(v)
    }

    fn variant_from_str(v: &str) -> Option<StoredVariant> {
        HpkeKdfType::stored_variant_from_str(v)
    }

    fn variant_from_bytes(v: &[u8]) -> Result<StoredVariant, VariantNameError> {
        HpkeKdfType::stored_variant_from_bytes(v)
    }
}

struct CustomAead {
    id: u16,
    key_size: usize,
    tag_size: usize,
}

impl Serialize for CustomAead {
    fn serialize<S: Serializer>(&self, s: S) -> Result<S::Ok, S::Error> {
        let mut st = s.serialize_struct("CustomAead", 3)?;
        st.serialize_field("id", &self.id)?;
        st.serialize_field("key_size", &self.key_size)?;
        st.serialize_field("tag_size", &self.tag_size)?;
        st.end()
    }
}

struct CustomAeadVisitor;

impl<'de> Visitor<'de> for CustomAeadVisitor {
    type Value = CustomAead;

    fn expecting(&self, f: &mut core::fmt::Formatter) -> core::fmt::Result {
        f.write_str("CustomAead")
    }

    fn visit_seq<A: serde::de::SeqAccess<'de>>(self, mut seq: A) -> Result<CustomAead, A::Error> {
        let id: u16 = seq.next_element()?.ok_or_else(|| de::Error::missing_field("id"))?;
        let key_size: usize = seq.next_element()?.ok_or_else(|| de::Error::missing_field("key_size"))?;
        let tag_size: usize = seq.next_element()?.ok_or_else(|| de::Error::missing_field("tag_size"))?;
        Ok(CustomAead { id, key_size, tag_size })
    }

    fn visit_map<A: serde::de::MapAccess<'de>>(self, mut map: A) -> Result<CustomAead, A::Error> {
        let mut id: Option<u16> = None;
        let mut key_size: Option<usize> = None;
        let mut tag_size: Option<usize> = None;
        while let Some(key) = map.next_key::<String>()? {
            match key.as_str() {
                "id" => id = Some(map.next_value()?),
                "key_size" => key_size = Some(map.next_value()?),
                "tag_size" => tag_size = Some(map.next_value()?),
                other => return Err(de::Error::unknown_field(other, &[])),
            }
        }
        Ok(CustomAead {
            id: id.ok_or_else(|| de::Error::missing_field("id"))?,
            key_size: key_size.ok_or_else(|| de::Error::missing_field("key_size"))?,
            tag_size: tag_size.ok_or_else(|| de::Error::missing_field("tag_size"))?,
        })
    }
}

impl<'de> serde::Deserialize<'de> for CustomAead {
    fn deserialize<D: serde::Deserializer<'de>>(d: D) -> Result<Self, D::Error> {
        d.deserialize_struct("CustomAead", &["id", "key_size", "tag_size"], CustomAeadVisitor)
    }
}

#[derive(Clone, Copy, PartialEq)]
struct Aead(AeadType);

impl core::fmt::Debug for Aead {
    fn fmt(&self, f: &mut core::fmt::Formatter<'_>) -> core::fmt::Result {
        f.write_str(&format!("{:?}", self.0))
    }
}

impl Serialize for Aead {
    fn serialize<S: Serializer>(&self, s: S) -> Result<S::Ok, S::Error> {
        serialize_coded(self, s)
    }
}

impl<'de> serde::Deserialize<'de> for Aead {
    fn deserialize<D: serde::Deserializer<'de>>(d: D) -> Result<Self, D::Error> {
        deserialize_coded(d)
    }
}

impl Coded for Aead {
    const TYPE_NAME: &'static str = "AeadType";
    const VARIANTS: &'static [&'static str] = &AEAD_VARIANT_NAMES;
    type Custom = CustomAead;

    fn stored_variant(&self) -> StoredVariant {
        self.0.stored_variant()
    }

    fn stored_name(&self) -> &'static str {
        self.0.stored_name()
    }

    fn named(i: usize) -> Option<Self> {
        AeadType::stored_named(i).map(Aead)
    }

    fn custom_payload(&self) -> CustomAead {
        CustomAead { id: self.0.id(), key_size: self.0.key_size(), tag_size: self.0.tag_size() }
    }

    fn from_custom(c: CustomAead) -> Result<Self, String> {
        Ok(Aead(AeadType::new(c.id, c.key_size, c.tag_size)))
    }

    fn variant_from_u64(v: u64) -> Option<StoredVariant> {
        AeadType::stored_variant_from_u64(v)
    }

    fn variant_from_str(v: &str) -> Option<StoredVariant> {
        AeadType::stored_variant_from_str(v)
    }

    fn variant_from_bytes(v: &[u8]) -> Result<StoredVariant, VariantNameError> {
        AeadType::stored_variant_from_bytes(v)
    }
}

struct CustomHash {
    id: u16,
    size: usize,
}

impl Serialize for CustomHash {
    fn serialize<S: Serializer>(&self, s: S) -> Result<S::Ok, S::Error> {
        let mut st = s.serialize_struct("CustomHash", 2)?;
        st.serialize_field("id", &self.id)?;
        st.serialize_field("size", &self.size)?;
        st.end()
    }
}

struct CustomHashVisitor;

impl<'de> Visitor<'de> for CustomHashVisitor {
    type Value = CustomHash;

    fn expecting(&self, f: &mut core::fmt::Formatter) -> core::fmt::Result {
        f.write_str("CustomHash")
    }

    fn visit_seq<A: serde::de::SeqAccess<'de>>(self, mut seq: A) -> Result<CustomHash, A::Error> {
        let id: u16 = seq.next_element()?.ok_or_else(|| de::Error::missing_field("id"))?;
        let size: usize = seq.next_element()?.ok_or_else(|| de::Error::missing_field("size"))?;
        Ok(CustomHash { id, size })
    }

    fn visit_map<A: serde::de::MapAccess<'de>>(self, mut map: A) -> Result<CustomHash, A::Error> {
        let mut id: Option<u16> = None;
        let mut size: Option<usize> = None;
        while let Some(key) = map.next_key::<String>()? {
            match key.as_str() {
                "id" => id = Some(map.next_value()?),
                "size" => size = Some(map.next_value()?),
                other => return Err(de::Error::unknown_field(other, &[])),
            }
        }
        Ok(CustomHash {
            id: id.ok_or_else(|| de::Error::missing_field("id"))?,
            size: size.ok_or_else(|| de::Error::missing_field("size"))?,
        })
    }
}

impl<'de> serde::Deserialize<'de> for CustomHash {
    fn deserialize<D: serde::Deserializer<'de>>(d: D) -> Result<Self, D::Error> {
        d.deserialize_struct("CustomHash", &["id", "size"], CustomHashVisitor)
    }
}

#[derive(Clone, Copy, PartialEq)]
struct Hash(HashType);

impl core::fmt::Debug for Hash {
    fn fmt(&self, f: &mut core::fmt::Formatter<'_>) -> core::fmt::Result {
        f.write_str(&format!("{:?}", self.0))
    }
}

impl Serialize for Hash {
    fn serialize<S: Serializer>(&self, s: S) -> Result<S::Ok, S::Error> {
        serialize_coded(self, s)
    }
}

impl<'de> serde::Deserialize<'de> for Hash {
    fn deserialize<D: serde::Deserializer<'de>>(d: D) -> Result<Self, D::Error> {
        deserialize_coded(d)
    }
}

impl Coded for Hash {
    const TYPE_NAME: &'static str = "HashType";
    const VARIANTS: &'static [&'static str] = &HASH_VARIANT_NAMES;
    type Custom = CustomHash;

    fn stored_variant(&self) -> StoredVariant {
        self.0.stored_variant()
    }

    fn stored_name(&self) -> &'static str {
        self.0.stored_name()
    }

    fn named(i: usize) -> Option<Self> {
        HashType::stored_named(i).map(Hash)
    }

    fn custom_payload(&self) -> CustomHash {
        CustomHash { id: self.0.id(), size: self.0.size() }
    }

    fn from_custom(c: CustomHash) -> Result<Self, String> {
        Ok(Hash(HashType::new(c.id, c.size)))
    }

    fn variant_from_u64(v: u64) -> Option<StoredVariant> {
        HashType::stored_variant_from_u64(v)
    }

    fn variant_from_str(v: &str) -> Option<StoredVariant> {
        HashType::stored_variant_from_str(v)
    }

    fn variant_from_bytes(v: &[u8]) -> Result<StoredVariant, VariantNameError> {
        HashType::stored_variant_from_bytes(v)
    }
}

struct StoredParams {
    kem: Kem,
    kdf: Kdf,
    aead: Aead,
    hash: Hash,
    signature: Scheme,
}

impl Serialize for StoredParams {
    fn serialize<S: Serializer>(&self, s: S) -> Result<S::Ok, S::Error> {
        let mut st = s.serialize_struct("StoredParams", 5)?;
        st.serialize_field("kem", &self.kem)?;
        st.serialize_field("kdf", &self.kdf)?;
        st.serialize_field("aead", &self.aead)?;
        st.serialize_field("hash", &self.hash)?;
        st.serialize_field("signature", &self.signature)?;
        st.end()
    }
}

struct StoredParamsVisitor;

impl<'de> Visitor<'de> for StoredParamsVisitor {
    type Value = StoredParams;

    fn expecting(&self, f: &mut core::fmt::Formatter) -> core::fmt::Result {
        f.write_str("StoredParams")
    }

    fn visit_seq<A: serde::de::SeqAccess<'de>>(self, mut seq: A) -> Result<StoredParams, A::Error> {
        let kem: Kem = seq.next_element()?.ok_or_else(|| de::Error::missing_field("kem"))?;
        let kdf: Kdf = seq.next_element()?.ok_or_else(|| de::Error::missing_field("kdf"))?;
        let aead: Aead = seq.next_element()?.ok_or_else(|| de::Error::missing_field("aead"))?;
        let hash: Hash = seq.next_element()?.ok_or_else(|| de::Error::missing_field("hash"))?;
        let signature: Scheme = seq.next_element()?.ok_or_else(|| de::Error::missing_field("signature"))?;
        Ok(StoredParams { kem, kdf, aead, hash, signature })
    }

    fn visit_map<A: serde::de::MapAccess<'de>>(self, mut map: A) -> Result<StoredParams, A::Error> {
        let mut kem: Option<Kem> = None;
        let mut kdf: Option<Kdf> = None;
        let mut aead: Option<Aead> = None;
        let mut hash: Option<Hash> = None;
        let mut signature: Option<Scheme> = None;
        while let Some(key) = map.next_key::<String>()? {
            match key.as_str() {
                "kem" => kem = Some(map.next_value()?),
                "kdf" => kdf = Some(map.next_value()?),
                "aead" => aead = Some(map.next_value()?),
                "hash" => hash = Some(map.next_value()?),
                "signature" => signature = Some(map.next_value()?),
                other => return Err(de::Error::unknown_field(other, &[])),
            }
        }
        Ok(StoredParams {
            kem: kem.ok_or_else(|| de::Error::missing_field("kem"))?,
            kdf: kdf.ok_or_else(|| de::Error::missing_field("kdf"))?,
            aead: aead.ok_or_else(|| de::Error::missing_field("aead"))?,
            hash: hash.ok_or_else(|| de::Error::missing_field("hash"))?,
            signature: signature.ok_or_else(|| de::Error::missing_field("signature"))?,
        })
    }
}

impl<'de> serde::Deserialize<'de> for StoredParams {
    fn deserialize<D: serde::Deserializer<'de>>(d: D) -> Result<Self, D::Error> {
        d.deserialize_struct("StoredParams", &["kem", "kdf", "aead", "hash", "signature"], StoredParamsVisitor)
    }
}

struct CustomSuite {
    id: u16,
    params: StoredParams,
}

impl Serialize for CustomSuite {
    fn serialize<S: Serializer>(&self, s: S) -> Result<S::Ok, S::Error> {
        let mut st = s.serialize_struct("CustomSuite", 2)?;
        st.serialize_field("id", &self.id)?;
        st.serialize_field("params", &self.params)?;
        st.end()
    }
}

struct CustomSuiteVisitor;

impl<'de> Visitor<'de> for CustomSuiteVisitor {
    type Value = CustomSuite;

    fn expecting(&self, f: &mut core::fmt::Formatter) -> core::fmt::Result {
        f.write_str("CustomSuite")
    }

    fn visit_seq<A: serde::de::SeqAccess<'de>>(self, mut seq: A) -> Result<CustomSuite, A::Error> {
        let id: u16 = seq.next_element()?.ok_or_else(|| de::Error::missing_field("id"))?;
        let params: StoredParams = seq.next_element()?.ok_or_else(|| de::Error::missing_field("params"))?;
        Ok(CustomSuite { id, params })
    }

    fn visit_map<A: serde::de::MapAccess<'de>>(self, mut map: A) -> Result<CustomSuite, A::Error> {
        let mut id: Option<u16> = None;
        let mut params: Option<StoredParams> = None;
        while let Some(key) = map.next_key::<String>()? {
            match key.as_str() {
                "id" => id = Some(map.next_value()?),
                "params" => params = Some(map.next_value()?),
                other => return Err(de::Error::unknown_field(other, &[])),
            }
        }
        Ok(CustomSuite {
            id: id.ok_or_else(|| de::Error::missing_field("id"))?,
            params: params.ok_or_else(|| de::Error::missing_field("params"))?,
        })
    }
}

impl<'de> serde::Deserialize<'de> for CustomSuite {
    fn deserialize<D: serde::Deserializer<'de>>(d: D) -> Result<Self, D::Error> {
        d.deserialize_struct("CustomSuite", &["id", "params"], CustomSuiteVisitor)
    }
}

#[derive(Clone, Copy)]
struct Suite(Ciphersuite);

impl core::fmt::Debug for Suite {
    fn fmt(&self, f: &mut core::fmt::Formatter<'_>) -> core::fmt::Result {
        f.write_str(&format!("{:?}", self.0.id()))
    }
}

impl PartialEq for Suite {
    fn eq(&self, other: &Self) -> bool {
        self.0 == other.0
    }
}

impl Serialize for Suite {
    fn serialize<S: Serializer>(&self, s: S) -> Result<S::Ok, S::Error> {
        serialize_coded(self, s)
    }
}

impl<'de> serde::Deserialize<'de> for Suite {
    fn deserialize<D: serde::Deserializer<'de>>(d: D) -> Result<Self, D::Error> {
        deserialize_coded(d)
    }
}

impl Coded for Suite {
    const TYPE_NAME: &'static str = "Ciphersuite";
    const VARIANTS: &'static [&'static str] = &STORED_VARIANT_NAMES;
    type Custom = CustomSuite;

    fn stored_variant(&self) -> StoredVariant {
        self.0.stored_variant()
    }

    fn stored_name(&self) -> &'static str {
        self.0.stored_name()
    }

    fn named(i: usize) -> Option<Self> {
        if i < BUILTIN_COUNT {
            Some(Suite(Ciphersuite::builtin_at(i)))
        } else {
            None
        }
    }

    fn custom_payload(&self) -> CustomSuite {
        let p = self.0.params();
        CustomSuite {
            id: self.0.id(),
            params: StoredParams {
                kem: Kem(p.kem),
                kdf: Kdf(p.kdf),
                aead: Aead(p.aead),
                hash: Hash(p.hash),
                signature: Scheme(p.signature),
            },
        }
    }

    fn from_custom(c: CustomSuite) -> Result<Self, String> {
        let params = CiphersuiteParams {
            kem: c.params.kem.0,
            kdf: c.params.kdf.0,
            aead: c.params.aead.0,
            hash: c.params.hash.0,
            signature: c.params.signature.0,
        };
        Ciphersuite::try_custom(c.id, params)
            .map(Suite)
            .map_err(|e| format!("{:#06x} is not a custom ciphersuite: {e:?}", c.id))
    }

    fn variant_from_u64(v: u64) -> Option<StoredVariant> {
        Ciphersuite::stored_variant_from_u64(v)
    }

    fn variant_from_str(v: &str) -> Option<StoredVariant> {
        Ciphersuite::stored_variant_from_str(v)
    }

    fn variant_from_bytes(v: &[u8]) -> Result<StoredVariant, VariantNameError> {
        Ciphersuite::stored_variant_from_bytes(v)
    }
}

/// Code point, former declaration index, former variant name.
const EXPECTED: &[(u16, u32, &str)] = &[
    (0x0001, 0, "MLS_128_DHKEMX25519_AES128GCM_SHA256_Ed25519"),
    (0x0002, 1, "MLS_128_DHKEMP256_AES128GCM_SHA256_P256"),
    (
        0x0003,
        2,
        "MLS_128_DHKEMX25519_CHACHA20POLY1305_SHA256_Ed25519",
    ),
    (0x0004, 3, "MLS_256_DHKEMX448_AES256GCM_SHA512_Ed448"),
    (0x0005, 4, "MLS_256_DHKEMP521_AES256GCM_SHA512_P521"),
    (0x0006, 5, "MLS_256_DHKEMX448_CHACHA20POLY1305_SHA512_Ed448"),
    (0x0007, 6, "MLS_256_DHKEMP384_AES256GCM_SHA384_P384"),
];

#[test]
fn serde_json_uses_the_name() {
    for (cp, _, name) in EXPECTED {
        let cs = Ciphersuite::try_from(*cp).unwrap();
        let json = serde_json::to_string(&Suite(cs)).unwrap();
        assert_eq!(json, format!("\"{name}\""), "{cp:#06x}");
        assert_eq!(serde_json::from_str::<Suite>(&json).unwrap(), Suite(cs));
    }
    assert!(serde_json::from_str::<Suite>("\"MLS_000_NOPE\"").is_err());
}

#[test]
fn postcard_uses_the_declaration_index() {
    for (cp, index, _) in EXPECTED {
        let cs = Ciphersuite::try_from(*cp).unwrap();
        let bytes = postcard::to_allocvec(&Suite(cs)).unwrap();
        assert_eq!(bytes, postcard::to_allocvec(index).unwrap(), "{cp:#06x}");
        assert_eq!(postcard::from_bytes::<Suite>(&bytes).unwrap(), Suite(cs));
    }
    let out_of_range = postcard::to_allocvec(&(EXPECTED.len() as u32)).unwrap();
    assert!(postcard::from_bytes::<Suite>(&out_of_range).is_err());
}

#[test]
fn ciborium_uses_the_name() {
    for (cp, _, name) in EXPECTED {
        let cs = Ciphersuite::try_from(*cp).unwrap();
        let mut bytes = Vec::new();
        ciborium::into_writer(&Suite(cs), &mut bytes).unwrap();
        let mut expected = Vec::new();
        ciborium::into_writer(name, &mut expected).unwrap();
        assert_eq!(bytes, expected, "{cp:#06x}");
        assert_eq!(
            ciborium::from_reader::<Suite, _>(bytes.as_slice()).unwrap(),
            Suite(cs)
        );
    }
}

const PARAMS: CiphersuiteParams = CiphersuiteParams {
    kem: HpkeKemType::DhKemP256,
    kdf: HpkeKdfType::HkdfSha256,
    aead: AeadType::ChaCha20Poly1305,
    hash: HashType::Sha2_256,
    signature: SignatureScheme::ECDSA_SECP256R1_SHA256,
};

fn custom() -> Ciphersuite {
    Ciphersuite::custom(0xF0F0, PARAMS)
}

#[test]
fn custom_round_trips_through_serde() {
    let json = serde_json::to_string(&Suite(custom())).unwrap();
    assert!(json.starts_with("{\"Custom\":"), "{json}");
    assert_eq!(serde_json::from_str::<Suite>(&json).unwrap(), Suite(custom()));
    assert_eq!(
        serde_json::from_str::<Suite>(&json).unwrap().0.params(),
        PARAMS
    );

    let bytes = postcard::to_allocvec(&Suite(custom())).unwrap();
    // The `Custom` variant has a fixed index, 0xFFFF, so that it does not
    // move when a feature adds built-in ciphersuites.
    assert_eq!(
        &bytes[..3],
        postcard::to_allocvec(&0xFFFFu32).unwrap().as_slice()
    );
    let back: Suite = postcard::from_bytes(&bytes).unwrap();
    assert_eq!(back, Suite(custom()));
    assert_eq!(back.0.params(), PARAMS);

    let mut cbor = Vec::new();
    ciborium::into_writer(&Suite(custom()), &mut cbor).unwrap();
    let back: Suite = ciborium::from_reader(cbor.as_slice()).unwrap();
    assert_eq!(back, Suite(custom()));
    assert_eq!(back.0.params(), PARAMS);
}

#[test]
fn stored_custom_with_a_builtin_code_point_is_rejected() {
    let json = serde_json::to_string(&Suite(custom()))
        .unwrap()
        .replace("61680", "2");
    assert!(json.contains("\"id\":2"), "{json}");
    assert!(serde_json::from_str::<Suite>(&json).is_err());
}

#[test]
fn serde_round_trip() {
    for kem in [HpkeKemType::DhKemP256, HpkeKemType::new(0x0050)] {
        let json = serde_json::to_string(&Kem(kem)).unwrap();
        assert_eq!(serde_json::from_str::<Kem>(&json).unwrap(), Kem(kem));
        let bytes = postcard::to_allocvec(&Kem(kem)).unwrap();
        assert_eq!(postcard::from_bytes::<Kem>(&bytes).unwrap(), Kem(kem));
    }
}

#[test]
fn custom_hash_round_trips_through_serde() {
    let blake3 = HashType::new(0x0100, 32);
    let json = serde_json::to_string(&Hash(blake3)).unwrap();
    assert_eq!(serde_json::from_str::<Hash>(&json).unwrap(), Hash(blake3));
}

fn check<T>(value: T, index: u32, name: &str)
where
    T: serde::Serialize + serde::de::DeserializeOwned + PartialEq + core::fmt::Debug,
{
    let json = serde_json::to_string(&value).unwrap();
    assert_eq!(json, format!("\"{name}\""));
    assert_eq!(serde_json::from_str::<T>(&json).unwrap(), value);

    let bytes = postcard::to_allocvec(&value).unwrap();
    assert_eq!(bytes, postcard::to_allocvec(&index).unwrap(), "{name}");
    assert_eq!(postcard::from_bytes::<T>(&bytes).unwrap(), value);

    let mut cbor = Vec::new();
    ciborium::into_writer(&value, &mut cbor).unwrap();
    let mut expected = Vec::new();
    ciborium::into_writer(name, &mut expected).unwrap();
    assert_eq!(cbor, expected, "{name}");
    assert_eq!(
        ciborium::from_reader::<T, _>(cbor.as_slice()).unwrap(),
        value
    );

    assert_eq!(format!("{value:?}"), name);
}

#[test]
fn builtin_aeads_keep_their_encoding() {
    let aeads = [
        (AeadType::Aes128Gcm, 0u32, "Aes128Gcm"),
        (AeadType::Aes256Gcm, 1, "Aes256Gcm"),
        (AeadType::ChaCha20Poly1305, 2, "ChaCha20Poly1305"),
    ];
    for (aead, index, name) in aeads {
        check(Aead(aead), index, name);
    }
    assert!(serde_json::from_str::<Aead>("\"Aes192Gcm\"").is_err());
    let out_of_range = postcard::to_allocvec(&(aeads.len() as u32)).unwrap();
    assert!(postcard::from_bytes::<Aead>(&out_of_range).is_err());
}

#[test]
fn builtin_schemes_keep_their_encoding() {
    let schemes = [
        (SignatureScheme::ECDSA_SECP256R1_SHA256, 0u32, "ECDSA_SECP256R1_SHA256"),
        (SignatureScheme::ECDSA_SECP384R1_SHA384, 1, "ECDSA_SECP384R1_SHA384"),
        (SignatureScheme::ECDSA_SECP521R1_SHA512, 2, "ECDSA_SECP521R1_SHA512"),
        (SignatureScheme::ED25519, 3, "ED25519"),
        (SignatureScheme::ED448, 4, "ED448"),
    ];
    for (scheme, index, name) in schemes {
        check(Scheme(scheme), index, name);
    }
    let out_of_range = postcard::to_allocvec(&(schemes.len() as u32)).unwrap();
    assert!(postcard::from_bytes::<Scheme>(&out_of_range).is_err());
}

#[test]
fn custom_values_round_trip() {
    let aead = AeadType::new(0x0004, 32, 16);
    let scheme = SignatureScheme::new(0x081A);

    let json = serde_json::to_string(&Aead(aead)).unwrap();
    assert_eq!(
        json,
        "{\"Custom\":{\"id\":4,\"key_size\":32,\"tag_size\":16}}"
    );
    assert_eq!(serde_json::from_str::<Aead>(&json).unwrap(), Aead(aead));
    let json = serde_json::to_string(&Scheme(scheme)).unwrap();
    assert_eq!(json, "{\"Custom\":2074}");
    assert_eq!(
        serde_json::from_str::<Scheme>(&json).unwrap(),
        Scheme(scheme)
    );

    // Custom has a fixed index, 0xFFFF, that no built-in table reaches.
    let custom_index = postcard::to_allocvec(&0xFFFFu32).unwrap();
    let bytes = postcard::to_allocvec(&Aead(aead)).unwrap();
    assert!(bytes.starts_with(&custom_index));
    assert_eq!(postcard::from_bytes::<Aead>(&bytes).unwrap(), Aead(aead));
    let bytes = postcard::to_allocvec(&Scheme(scheme)).unwrap();
    assert!(bytes.starts_with(&custom_index));
    assert_eq!(
        postcard::from_bytes::<Scheme>(&bytes).unwrap(),
        Scheme(scheme)
    );
}
