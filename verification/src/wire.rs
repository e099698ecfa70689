//! The Borsh layout of the arguments that the metadata program reads.
//!
//! Single values are serialised by the borsh crate; a structure is the
//! concatenation of its fields in declaration order, and an optional value is
//! a tag byte followed, where present, by the value.

use vstd::prelude::*;
use vstd::utf8::encode_utf8;
use crate::error::ErrorCode;
use crate::pubkey::Pubkey;

verus! {

/// The error type of borsh's serialisers, `std::io::Error`. A value of it is
/// passed along and never looked into.
#[verifier::external_type_specification]
#[verifier::external_body]
pub struct ExIoError(std::io::Error);

/// A `u16` in little-endian order.
pub open spec fn u16_layout(value: u16) -> Seq<u8> {
    seq![(value % 256) as u8, (value / 256) as u8]
}

/// A `u32` in little-endian order.
pub open spec fn u32_layout(value: u32) -> Seq<u8> {
    seq![
        (value % 256) as u8,
        (value / 256 % 256) as u8,
        (value / 65536 % 256) as u8,
        (value / 16777216) as u8,
    ]
}

/// A `bool` as one byte, 1 for `true`.
pub open spec fn bool_layout(value: bool) -> Seq<u8> {
    seq![if value { 1u8 } else { 0u8 }]
}

/// A string: the length of its UTF-8 form as a `u32`, then that form.
pub open spec fn string_layout(chars: Seq<char>) -> Seq<u8> {
    u32_layout(encode_utf8(chars).len() as u32) + encode_utf8(chars)
}

/// Whether a string is short enough for its length prefix.
pub open spec fn string_fits(chars: Seq<char>) -> bool {
    encode_utf8(chars).len() <= u32::MAX
}

/// An optional value, given the layout of the value where it is present.
pub open spec fn option_layout(inner: Option<Seq<u8>>) -> Seq<u8> {
    match inner {
        None => seq![0u8],
        Some(bytes) => seq![1u8] + bytes,
    }
}

/// An optional byte on the wire.
pub open spec fn option_u8_layout(value: Option<u8>) -> Seq<u8> {
    option_layout(
        match value {
            None => None,
            Some(byte) => Some(seq![byte]),
        },
    )
}

/// An optional flag on the wire.
pub open spec fn option_bool_layout(value: Option<bool>) -> Seq<u8> {
    option_layout(
        match value {
            None => None,
            Some(flag) => Some(bool_layout(flag)),
        },
    )
}

/// An optional address on the wire.
pub open spec fn option_pubkey_layout(value: Option<Pubkey>) -> Seq<u8> {
    option_layout(
        match value {
            None => None,
            Some(key) => Some(key@),
        },
    )
}

/// Descriptive fields on the wire, in declaration order.
pub open spec fn data_layout(
    name: Seq<char>,
    symbol: Seq<char>,
    uri: Seq<char>,
    seller_fee_basis_points: u16,
    creators: Option<u8>,
    collection: Option<u8>,
    uses: Option<u8>,
) -> Seq<u8> {
    string_layout(name) + string_layout(symbol) + string_layout(uri) + u16_layout(
        seller_fee_basis_points,
    ) + option_u8_layout(creators) + option_u8_layout(collection) + option_u8_layout(uses)
}

/// `borsh::to_vec` on a `u8`: the byte itself. Writing to a vector cannot fail.
#[verifier::external_body]
fn borsh_u8(value: u8) -> (out: Result<Vec<u8>, std::io::Error>)
    ensures
        out is Ok,
        out matches Ok(bytes) ==> bytes@ == seq![value],
{
    borsh::to_vec(&value)
}

/// `borsh::to_vec` on a `u16`: its two bytes, low byte first.
#[verifier::external_body]
fn borsh_u16(value: u16) -> (out: Result<Vec<u8>, std::io::Error>)
    ensures
        out is Ok,
        out matches Ok(bytes) ==> bytes@ == u16_layout(value),
{
    borsh::to_vec(&value)
}

/// `borsh::to_vec` on a `bool`: one byte, 1 for `true` and 0 for `false`.
#[verifier::external_body]
fn borsh_bool(value: bool) -> (out: Result<Vec<u8>, std::io::Error>)
    ensures
        out is Ok,
        out matches Ok(bytes) ==> bytes@ == bool_layout(value),
{
    borsh::to_vec(&value)
}

/// `borsh::to_vec` on an array of 32 bytes: the bytes, with no length prefix.
#[verifier::external_body]
fn borsh_bytes32(value: &[u8; 32]) -> (out: Result<Vec<u8>, std::io::Error>)
    ensures
        out is Ok,
        out matches Ok(bytes) ==> bytes@ == value@,
{
    borsh::to_vec(value)
}

/// `borsh::to_vec` on a string slice: the byte length as a little-endian
/// `u32`, then the UTF-8 bytes. Borsh fails exactly where the length does not
/// fit in a `u32`.
#[verifier::external_body]
fn borsh_str(value: &str) -> (out: Result<Vec<u8>, std::io::Error>)
    ensures
        out is Ok <==> string_fits(value@),
        out matches Ok(bytes) ==> bytes@ == string_layout(value@),
{
    borsh::to_vec(value)
}

/// Appends what a serialiser produced.
fn put(data: &mut Vec<u8>, encoded: Result<Vec<u8>, std::io::Error>)
    requires
        encoded is Ok,
    ensures
        final(data)@ == old(data)@ + encoded->Ok_0@,
{
    match encoded {
        Ok(mut bytes) => data.append(&mut bytes),
        Err(_) => {},
    }
}

/// Appends a string, or fails and leaves `data` as it is where the string is
/// too long for its length prefix.
fn put_str(data: &mut Vec<u8>, value: &str) -> (done: Result<(), ErrorCode>)
    ensures
        done is Ok <==> string_fits(value@),
        done is Ok ==> final(data)@ == old(data)@ + string_layout(value@),
        done matches Err(code) ==> code == ErrorCode::EncodingInvariantViolation && final(data)@
            == old(data)@,
{
    match borsh_str(value) {
        Ok(mut bytes) => {
            data.append(&mut bytes);
            Ok(())
        },
        Err(_) => Err(ErrorCode::EncodingInvariantViolation),
    }
}

/// Appends an optional byte: the tag, then the byte where present.
fn put_option_u8(data: &mut Vec<u8>, value: Option<u8>)
    ensures
        final(data)@ == old(data)@ + option_u8_layout(value),
{
    match value {
        None => data.push(0),
        Some(byte) => {
            data.push(1);
            put(data, borsh_u8(byte));
        },
    }
    proof {
        assert(data@ =~= old(data)@ + option_u8_layout(value));
    }
}

/// Appends an optional flag: the tag, then the flag where present.
fn put_option_bool(data: &mut Vec<u8>, value: Option<bool>)
    ensures
        final(data)@ == old(data)@ + option_bool_layout(value),
{
    match value {
        None => data.push(0),
        Some(flag) => {
            data.push(1);
            put(data, borsh_bool(flag));
        },
    }
    proof {
        assert(data@ =~= old(data)@ + option_bool_layout(value));
    }
}

/// Appends an optional address: the tag, then its 32 bytes where present.
fn put_option_pubkey(data: &mut Vec<u8>, value: Option<Pubkey>)
    ensures
        final(data)@ == old(data)@ + option_pubkey_layout(value),
{
    match value {
        None => data.push(0),
        Some(key) => {
            data.push(1);
            put(data, borsh_bytes32(&key.0));
        },
    }
    proof {
        assert(data@ =~= old(data)@ + option_pubkey_layout(value));
    }
}

/// The descriptive fields of a metadata record.
#[derive(Clone, Debug, PartialEq, Eq)]
pub struct DataV2 {
    /// The name of the asset.
    pub name: String,
    /// The symbol for the asset.
    pub symbol: String,
    /// URI pointing to JSON representing the asset.
    pub uri: String,
    /// Royalty basis points that go to creators in secondary sales.
    pub seller_fee_basis_points: u16,
    /// Reserved: the array of creators.
    pub creators: Option<u8>,
    /// Reserved: the collection.
    pub collection: Option<u8>,
    /// Reserved: the uses.
    pub uses: Option<u8>,
}

impl DataV2 {
    /// Whether each string is short enough for its length prefix.
    pub open spec fn fits(&self) -> bool {
        &&& string_fits(self.name@)
        &&& string_fits(self.symbol@)
        &&& string_fits(self.uri@)
    }

    /// The fields on the wire, in declaration order.
    pub open spec fn layout(&self) -> Seq<u8> {
        data_layout(
            self.name@,
            self.symbol@,
            self.uri@,
            self.seller_fee_basis_points,
            self.creators,
            self.collection,
            self.uses,
        )
    }

    /// Appends the fields to `data`, up to the first string that does not
    /// fit.
    fn write(&self, data: &mut Vec<u8>) -> (done: Result<(), ErrorCode>)
        ensures
            done is Ok <==> self.fits(),
            done is Ok ==> final(data)@ == old(data)@ + self.layout(),
            done matches Err(code) ==> code == ErrorCode::EncodingInvariantViolation,
    {
        match put_str(data, self.name.as_str()) {
            Ok(()) => {},
            Err(code) => return Err(code),
        }
        match put_str(data, self.symbol.as_str()) {
            Ok(()) => {},
            Err(code) => return Err(code),
        }
        match put_str(data, self.uri.as_str()) {
            Ok(()) => {},
            Err(code) => return Err(code),
        }
        put(data, borsh_u16(self.seller_fee_basis_points));
        put_option_u8(data, self.creators);
        put_option_u8(data, self.collection);
        put_option_u8(data, self.uses);
        proof {
            assert(data@ =~= old(data)@ + self.layout());
        }
        Ok(())
    }

    /// The fields serialised into a fresh vector, or
    /// `EncodingInvariantViolation` where a string does not fit.
    pub fn to_vec(&self) -> (encoded: Result<Vec<u8>, ErrorCode>)
        ensures
            encoded is Ok <==> self.fits(),
            encoded matches Ok(data) ==> data@ == self.layout(),
            encoded matches Err(code) ==> code == ErrorCode::EncodingInvariantViolation,
    {
        let mut data: Vec<u8> = Vec::new();
        match self.write(&mut data) {
            Ok(()) => Ok(data),
            Err(code) => Err(code),
        }
    }
}

/// The optional descriptive fields on the wire.
pub open spec fn option_data_layout(value: Option<DataV2>) -> Seq<u8> {
    option_layout(
        match value {
            None => None,
            Some(data) => Some(data.layout()),
        },
    )
}

/// The arguments of the instruction that creates a metadata record.
#[derive(Clone, Debug, PartialEq, Eq)]
pub struct CreateMetadataAccountArgsV3 {
    /// The descriptive fields of the new record.
    pub data: DataV2,
    /// Whether the record can be updated later.
    pub is_mutable: bool,
    /// Reserved: set where the mint is a collection parent.
    pub collection_details: Option<u8>,
}

impl CreateMetadataAccountArgsV3 {
    /// The arguments on the wire, in declaration order.
    pub open spec fn layout(&self) -> Seq<u8> {
        self.data.layout() + bool_layout(self.is_mutable) + option_u8_layout(
            self.collection_details,
        )
    }

    /// The arguments serialised into a fresh vector, or
    /// `EncodingInvariantViolation` where a string does not fit.
    pub fn to_vec(&self) -> (encoded: Result<Vec<u8>, ErrorCode>)
        ensures
            encoded is Ok <==> self.data.fits(),
            encoded matches Ok(data) ==> data@ == self.layout(),
            encoded matches Err(code) ==> code == ErrorCode::EncodingInvariantViolation,
    {
        let mut data: Vec<u8> = Vec::new();
        match self.data.write(&mut data) {
            Ok(()) => {},
            Err(code) => return Err(code),
        }
        put(&mut data, borsh_bool(self.is_mutable));
        put_option_u8(&mut data, self.collection_details);
        proof {
            assert(data@ =~= self.layout());
        }
        Ok(data)
    }
}

/// The arguments of the instruction that updates a metadata record. A field
/// that is absent leaves that part of the record as it is.
#[derive(Clone, Debug, PartialEq, Eq)]
pub struct UpdateMetadataAccountArgsV2 {
    /// New descriptive fields.
    pub data: Option<DataV2>,
    /// The address that becomes the record's update authority.
    pub update_authority: Option<Pubkey>,
    /// New value of the primary-sale flag.
    pub primary_sale_happened: Option<bool>,
    /// New value of the mutability flag.
    pub is_mutable: Option<bool>,
}

impl UpdateMetadataAccountArgsV2 {
    /// Whether the descriptive fields, where present, can be serialised.
    pub open spec fn fits(&self) -> bool {
        self.data matches Some(data) ==> data.fits()
    }

    /// The arguments on the wire, in declaration order.
    pub open spec fn layout(&self) -> Seq<u8> {
        option_data_layout(self.data) + option_pubkey_layout(self.update_authority)
            + option_bool_layout(self.primary_sale_happened) + option_bool_layout(self.is_mutable)
    }

    /// The arguments serialised into a fresh vector, or
    /// `EncodingInvariantViolation` where a string does not fit.
    pub fn to_vec(&self) -> (encoded: Result<Vec<u8>, ErrorCode>)
        ensures
            encoded is Ok <==> self.fits(),
            encoded matches Ok(data) ==> data@ == self.layout(),
            encoded matches Err(code) ==> code == ErrorCode::EncodingInvariantViolation,
    {
        let mut data: Vec<u8> = Vec::new();
        match &self.data {
            None => data.push(0),
            Some(fields) => {
                data.push(1);
                match fields.write(&mut data) {
                    Ok(()) => {},
                    Err(code) => return Err(code),
                }
            },
        }
        assert(data@ =~= option_data_layout(self.data));
        put_option_pubkey(&mut data, self.update_authority);
        put_option_bool(&mut data, self.primary_sale_happened);
        put_option_bool(&mut data, self.is_mutable);
        proof {
            assert(data@ =~= self.layout());
        }
        Ok(data)
    }
}

} // verus!
