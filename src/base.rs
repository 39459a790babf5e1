//! Layers: the capabilities a layer may offer, and the layers that the core
//! itself produces (payload, fragment and decode failure).
use crate::checksum::ChecksumVerificationResult;
use crate::decode::DecodeFeedback;
use crate::error::{DecodeError, ErrorDecodeable, MethodNotImplementedError, PacketError};
use crate::layertype::{DecodeFunc, LayerType, LayerTypeID};
use crate::text::{decimal, decimal_text, lossy_utf8, utf8_lossy_text};
use vstd::prelude::*;
use vstd::slice::slice_to_vec;
use vstd::utf8::{decode_utf8, valid_utf8};

verus! {

/// The bytes an optional buffer holds.
pub open spec fn bytes_of(o: Option<Vec<u8>>) -> Option<Seq<u8>> {
    match o {
        Some(v) => Some(v@),
        None => None,
    }
}

/// The description of a layer that holds `n` bytes.
pub open spec fn byte_count_text(n: nat) -> Seq<char> {
    decimal(n) + " byte(s)"@
}

/// Turns diagnostic state into verbose text.
pub trait Dumper {
    fn dump(&self) -> String;
}

/// The length of optional bytes, zero for none.
pub open spec fn opt_len(o: Option<Seq<u8>>) -> nat {
    match o {
        Some(s) => s.len(),
        None => 0,
    }
}

pub fn copy_bytes(b: &Vec<u8>) -> (r: Vec<u8>)
    ensures
        r@ == b@,
{
    slice_to_vec(b.as_slice())
}

fn copy_opt_bytes(o: &Option<Vec<u8>>) -> (r: Option<Vec<u8>>)
    ensures
        bytes_of(r) == bytes_of(*o),
{
    match o {
        Some(v) => Some(copy_bytes(v)),
        None => None,
    }
}

fn byte_count_string(o: &Option<Vec<u8>>) -> (r: String)
    ensures
        r@ == byte_count_text(opt_len(bytes_of(*o))),
{
    let n: usize = match o {
        Some(v) => v.len(),
        None => 0,
    };
    let mut s = decimal_text(n);
    s.append(" byte(s)");
    s
}

/// What every layer offers: its type, its own bytes, the bytes it carries
/// for inner layers, and a description.
pub trait Layer {
    spec fn spec_type_id(&self) -> LayerTypeID;

    spec fn spec_contents(&self) -> Option<Seq<u8>>;

    spec fn spec_payload(&self) -> Option<Seq<u8>>;

    /// The layer's description.
    spec fn spec_string(&self) -> Seq<char>;

    fn layer_type(&self) -> (r: LayerType)
        ensures
            r.id == self.spec_type_id(),
    ;

    fn layer_contents(&self) -> (r: Option<Vec<u8>>)
        ensures
            bytes_of(r) == self.spec_contents(),
    ;

    fn layer_payload(&self) -> (r: Option<Vec<u8>>)
        ensures
            bytes_of(r) == self.spec_payload(),
    ;

    fn string(&self) -> (r: String)
        ensures
            r@ == self.spec_string(),
    ;
}

/// Layers whose checksum can be verified once the packet is decoded.
pub trait LayerWithChecksum {
    fn verify_checksum(&self) -> Result<ChecksumVerificationResult, PacketError>;
}

/// Layers that decode themselves from bytes and name the next decoder.
pub trait Payloadable: Layer {
    /// The class of layer types this layer decodes.
    fn can_decode(&self) -> LayerType;

    /// The layer type that decodes this layer's payload; id zero stops.
    fn next_layer_type(&self) -> LayerType;

    fn decode_from_bytes<F: DecodeFeedback>(&mut self, data: &[u8], df: &mut F) -> Result<
        (),
        DecodeError,
    >;
}

/// Layers that describe a flow.
pub trait Flow {
    fn flow(&self) -> String;
}

pub trait LinkLayer: Layer {
    fn link_flow(&self) -> String;
}

pub trait NetworkLayer: Layer {
    fn network_flow(&self) -> String;
}

pub trait TransportLayer: Layer {
    fn transport_flow(&self) -> String;
}

/// The application layer, also known as the packet payload.
pub trait ApplicationLayer: Layer {
    fn payload(&self) -> Option<Vec<u8>>;
}

/// The layer made when decoding failed: its contents are the bytes that
/// could not be decoded.
pub trait ErrorLayer: Layer {
    fn error(&self) -> &DecodeError;
}

/// The bytes of a layer and the bytes it carries, for layers that keep them
/// apart.
#[derive(Debug)]
pub struct BaseLayer {
    contents: Vec<u8>,
    payload: Vec<u8>,
}

impl BaseLayer {
    pub closed spec fn spec_contents(&self) -> Seq<u8> {
        self.contents@
    }

    pub closed spec fn spec_payload(&self) -> Seq<u8> {
        self.payload@
    }

    pub fn new(contents: Vec<u8>, payload: Vec<u8>) -> (r: Self)
        ensures
            r.spec_contents() == contents@,
            r.spec_payload() == payload@,
    {
        BaseLayer { contents, payload }
    }

    pub fn contents(&self) -> (r: Vec<u8>)
        ensures
            r@ == self.spec_contents(),
    {
        copy_bytes(&self.contents)
    }

    pub fn payload(&self) -> (r: Vec<u8>)
        ensures
            r@ == self.spec_payload(),
    {
        copy_bytes(&self.payload)
    }
}

/// Id of the type that stops decoding.
pub const LAYER_TYPE_ZERO: LayerTypeID = 0;

/// Id of the decode failure layer type.
pub const LAYER_TYPE_DECODE_FAILURE: LayerTypeID = 1;

/// Id of the payload layer type.
pub const LAYER_TYPE_PAYLOAD: LayerTypeID = 2;

/// Id of the fragment layer type.
pub const LAYER_TYPE_FRAGMENT: LayerTypeID = 3;

fn zero_layer_type() -> (r: LayerType)
    ensures
        r.id == LAYER_TYPE_ZERO,
{
    LayerType::new(LAYER_TYPE_ZERO, "LayerTypeZero", DecodeFunc::Unknown)
}

/// Application-level bytes that no layer decodes further.
#[derive(Debug)]
pub struct Payload {
    in_data: Option<Vec<u8>>,
}

impl Payload {
    pub closed spec fn data(&self) -> Option<Seq<u8>> {
        bytes_of(self.in_data)
    }

    /// A payload that holds no data.
    pub fn new() -> (r: Self)
        ensures
            r.data() is None,
    {
        Payload { in_data: None }
    }

    /// A payload that holds `data`.
    pub fn new_from(data: Vec<u8>) -> (r: Self)
        ensures
            r.data() == Some(data@),
    {
        Payload { in_data: Some(data) }
    }

    /// The payload's data, if it holds any.
    pub fn in_data(&self) -> (r: &Option<Vec<u8>>)
        ensures
            bytes_of(*r) == self.data(),
    {
        &self.in_data
    }
}

impl Layer for Payload {
    open spec fn spec_type_id(&self) -> LayerTypeID {
        LAYER_TYPE_PAYLOAD
    }

    open spec fn spec_contents(&self) -> Option<Seq<u8>> {
        self.data()
    }

    open spec fn spec_payload(&self) -> Option<Seq<u8>> {
        None
    }

    open spec fn spec_string(&self) -> Seq<char> {
        byte_count_text(opt_len(self.data()))
    }

    fn layer_type(&self) -> (r: LayerType)
        ensures
            r.id == LAYER_TYPE_PAYLOAD,
            r.decoder == DecodeFunc::Payload,
    {
        LayerType::new(LAYER_TYPE_PAYLOAD, "Payload", DecodeFunc::Payload)
    }

    fn layer_contents(&self) -> (r: Option<Vec<u8>>)
        ensures
            bytes_of(r) == self.data(),
    {
        copy_opt_bytes(&self.in_data)
    }

    fn layer_payload(&self) -> (r: Option<Vec<u8>>)
        ensures
            r is None,
    {
        None
    }

    fn string(&self) -> (r: String)
        ensures
            r@ == byte_count_text(opt_len(self.data())),
    {
        byte_count_string(&self.in_data)
    }
}

impl LayerWithChecksum for Payload {
    fn verify_checksum(&self) -> (r: Result<ChecksumVerificationResult, PacketError>)
        ensures
            r matches Err(PacketError::MethodNotImplemented(_)),
    {
        Err(
            PacketError::MethodNotImplemented(
                MethodNotImplementedError::new("Payload layer does not have a checksum", None),
            ),
        )
    }
}

impl ApplicationLayer for Payload {
    fn payload(&self) -> (r: Option<Vec<u8>>)
        ensures
            bytes_of(r) == self.data(),
    {
        copy_opt_bytes(&self.in_data)
    }
}

impl Payloadable for Payload {
    fn can_decode(&self) -> (r: LayerType)
        ensures
            r.id == LAYER_TYPE_PAYLOAD,
    {
        self.layer_type()
    }

    fn next_layer_type(&self) -> (r: LayerType)
        ensures
            r.id == LAYER_TYPE_ZERO,
    {
        zero_layer_type()
    }

    fn decode_from_bytes<F: DecodeFeedback>(&mut self, data: &[u8], df: &mut F) -> (r: Result<
        (),
        DecodeError,
    >)
        ensures
            r is Ok,
            final(self).data() == Some(data@),
            *final(df) == *old(df),
    {
        self.in_data = Some(slice_to_vec(data));
        Ok(())
    }
}

/// A piece of a larger frame that is not reassembled here.
#[derive(Debug)]
pub struct Fragment {
    in_data: Option<Vec<u8>>,
}

impl Fragment {
    pub closed spec fn data(&self) -> Option<Seq<u8>> {
        bytes_of(self.in_data)
    }

    /// A fragment that holds no data.
    pub fn new() -> (r: Self)
        ensures
            r.data() is None,
    {
        Fragment { in_data: None }
    }

    /// A fragment that holds `data`.
    pub fn new_from(data: Vec<u8>) -> (r: Self)
        ensures
            r.data() == Some(data@),
    {
        Fragment { in_data: Some(data) }
    }

    /// The fragment's data, if it holds any.
    pub fn in_data(&self) -> (r: &Option<Vec<u8>>)
        ensures
            bytes_of(*r) == self.data(),
    {
        &self.in_data
    }
}

impl Layer for Fragment {
    open spec fn spec_type_id(&self) -> LayerTypeID {
        LAYER_TYPE_FRAGMENT
    }

    open spec fn spec_contents(&self) -> Option<Seq<u8>> {
        self.data()
    }

    open spec fn spec_payload(&self) -> Option<Seq<u8>> {
        None
    }

    open spec fn spec_string(&self) -> Seq<char> {
        byte_count_text(opt_len(self.data()))
    }

    fn layer_type(&self) -> (r: LayerType)
        ensures
            r.id == LAYER_TYPE_FRAGMENT,
            r.decoder == DecodeFunc::Fragment,
    {
        LayerType::new(LAYER_TYPE_FRAGMENT, "DecodeFragment", DecodeFunc::Fragment)
    }

    fn layer_contents(&self) -> (r: Option<Vec<u8>>)
        ensures
            bytes_of(r) == self.data(),
    {
        copy_opt_bytes(&self.in_data)
    }

    fn layer_payload(&self) -> (r: Option<Vec<u8>>)
        ensures
            r is None,
    {
        None
    }

    fn string(&self) -> (r: String)
        ensures
            r@ == byte_count_text(opt_len(self.data())),
    {
        byte_count_string(&self.in_data)
    }
}

impl LayerWithChecksum for Fragment {
    fn verify_checksum(&self) -> (r: Result<ChecksumVerificationResult, PacketError>)
        ensures
            r matches Err(PacketError::MethodNotImplemented(_)),
    {
        Err(
            PacketError::MethodNotImplemented(
                MethodNotImplementedError::new("Fragment layer does not have a checksum", None),
            ),
        )
    }
}

impl ApplicationLayer for Fragment {
    fn payload(&self) -> (r: Option<Vec<u8>>)
        ensures
            r is None,
    {
        None
    }
}

impl Payloadable for Fragment {
    fn can_decode(&self) -> (r: LayerType)
        ensures
            r.id == LAYER_TYPE_FRAGMENT,
    {
        self.layer_type()
    }

    fn next_layer_type(&self) -> (r: LayerType)
        ensures
            r.id == LAYER_TYPE_ZERO,
    {
        zero_layer_type()
    }

    fn decode_from_bytes<F: DecodeFeedback>(&mut self, data: &[u8], df: &mut F) -> (r: Result<
        (),
        DecodeError,
    >)
        ensures
            r is Ok,
            final(self).data() == Some(data@),
            *final(df) == *old(df),
    {
        self.in_data = Some(slice_to_vec(data));
        Ok(())
    }
}

/// The terminal layer made when decoding fails: the error, and the bytes
/// that were left undecoded.
#[derive(Debug)]
pub struct DecodeFailure {
    pub in_data: Option<Vec<u8>>,
    pub err: DecodeError,
    pub stack: Vec<u8>,
}

impl DecodeFailure {
    /// A failure over `data`, for `err`, with `stack` as diagnostic text.
    pub fn new(data: Vec<u8>, err: DecodeError, stack: Vec<u8>) -> (r: Self)
        ensures
            bytes_of(r.in_data) == Some(data@),
            r.err == err,
            r.stack@ == stack@,
    {
        DecodeFailure { in_data: Some(data), err, stack }
    }

    /// The diagnostic stack bytes read as UTF-8, invalid sequences replaced.
    pub fn dump(&self) -> (r: String)
        ensures
            r@ == lossy_utf8(self.stack@),
            valid_utf8(self.stack@) ==> r@ == decode_utf8(self.stack@),
    {
        utf8_lossy_text(self.stack.as_slice())
    }
}

impl Layer for DecodeFailure {
    open spec fn spec_type_id(&self) -> LayerTypeID {
        LAYER_TYPE_DECODE_FAILURE
    }

    open spec fn spec_contents(&self) -> Option<Seq<u8>> {
        bytes_of(self.in_data)
    }

    open spec fn spec_payload(&self) -> Option<Seq<u8>> {
        None
    }

    open spec fn spec_string(&self) -> Seq<char> {
        "DecodeFailure: "@ + self.err.message@
    }

    fn layer_type(&self) -> (r: LayerType)
        ensures
            r.id == LAYER_TYPE_DECODE_FAILURE,
    {
        LayerType::new(LAYER_TYPE_DECODE_FAILURE, "DecodeFailure", DecodeFunc::Unknown)
    }

    fn layer_contents(&self) -> (r: Option<Vec<u8>>)
        ensures
            bytes_of(r) == bytes_of(self.in_data),
    {
        copy_opt_bytes(&self.in_data)
    }

    fn layer_payload(&self) -> (r: Option<Vec<u8>>)
        ensures
            r is None,
    {
        None
    }

    fn string(&self) -> (r: String)
        ensures
            r@ == "DecodeFailure: "@ + self.err.message@,
    {
        let mut s = "DecodeFailure: ".to_owned();
        s.append(self.err.message.as_str());
        s
    }
}

impl LayerWithChecksum for DecodeFailure {
    fn verify_checksum(&self) -> (r: Result<ChecksumVerificationResult, PacketError>)
        ensures
            r matches Err(PacketError::MethodNotImplemented(_)),
    {
        Err(
            PacketError::MethodNotImplemented(
                MethodNotImplementedError::new("layer does not verify checksum", None),
            ),
        )
    }
}

impl Dumper for DecodeFailure {
    fn dump(&self) -> (r: String)
        ensures
            r@ == lossy_utf8(self.stack@),
            valid_utf8(self.stack@) ==> r@ == decode_utf8(self.stack@),
    {
        utf8_lossy_text(self.stack.as_slice())
    }
}

impl ErrorLayer for DecodeFailure {
    fn error(&self) -> (r: &DecodeError)
        ensures
            *r == self.err,
    {
        &self.err
    }
}

} // verus!
