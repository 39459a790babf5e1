//! The packet that a decode call builds: its layers in decode order, the
//! first layer of each class, its metadata and the options in effect.
use crate::base::{
    copy_bytes, opt_len, BaseLayer, DecodeFailure, Dumper, Fragment, Layer, LayerWithChecksum,
    Payload, Payloadable, LAYER_TYPE_DECODE_FAILURE,
};
use crate::checksum::{ChecksumMismatch, ChecksumOutcome, ChecksumVerificationResult};
use crate::decode::{decode_fails, decoded_by, unknown_type_error, DecodeFeedback};
use crate::error::{
    DecodeError, ErrorDecodeable, MethodNotImplementedError, PacketError, VerifyChecksumError,
};
use crate::layerclass::LayerClass;
use crate::layertype::{DecodeFunc, LayerType, LayerTypeID};
use crate::text::{decimal, decimal_text, decimal_text_u64, hex_of, hex_text, lossy_utf8};
use crate::writer::vec_capacity;
use vstd::prelude::*;
use vstd::string::StrSliceExecFns;

verus! {

/// How a packet is decoded.
#[derive(Debug, Clone, Copy, PartialEq, Eq, Structural)]
pub struct DecodeOptions {
    /// Decode only the layers needed to answer each access.
    pub lazy: bool,
    /// Do not copy the input bytes into storage the packet owns.
    pub no_copy: bool,
    /// Take the packet's storage from a pool.
    pub pool: bool,
    /// Hand decode errors to the caller instead of recording a failure layer.
    pub skip_decode_recovery: bool,
    /// Decode the layers that follow a stream transport layer in one packet.
    pub decode_streams_as_datagrams: bool,
}

impl DecodeOptions {
    /// All options off: the safest configuration.
    pub fn default() -> (r: Self)
        ensures
            !r.lazy && !r.no_copy && !r.pool && !r.skip_decode_recovery
                && !r.decode_streams_as_datagrams,
    {
        DecodeOptions {
            lazy: false,
            no_copy: false,
            pool: false,
            skip_decode_recovery: false,
            decode_streams_as_datagrams: false,
        }
    }

    /// Lazy decoding, all else off.
    pub fn lazy() -> (r: Self)
        ensures
            r.lazy && !r.no_copy && !r.pool && !r.skip_decode_recovery
                && !r.decode_streams_as_datagrams,
    {
        DecodeOptions { lazy: true, ..Self::default() }
    }

    /// No-copy decoding, all else off.
    pub fn no_copy() -> (r: Self)
        ensures
            !r.lazy && r.no_copy && !r.pool && !r.skip_decode_recovery
                && !r.decode_streams_as_datagrams,
    {
        DecodeOptions { no_copy: true, ..Self::default() }
    }

    /// Stream payloads decoded as datagrams, all else off.
    pub fn decode_streams_as_datagrams() -> (r: Self)
        ensures
            !r.lazy && !r.no_copy && !r.pool && !r.skip_decode_recovery
                && r.decode_streams_as_datagrams,
    {
        DecodeOptions { decode_streams_as_datagrams: true, ..Self::default() }
    }
}

/// Capture and decode metadata of a packet.
#[derive(Debug, Clone, Copy, PartialEq, Eq, Structural)]
pub struct PacketMetadata {
    /// Capture time in nanoseconds since the Unix epoch, if known.
    pub timestamp: u64,
    /// Number of bytes read off the wire.
    pub capture_length: usize,
    /// Size of the original packet; at least `capture_length`.
    pub length: usize,
    /// The network interface the packet came from, if applicable.
    pub interface_index: usize,
    /// The packet is shorter than its headers declare.
    pub truncated: bool,
}

impl DecodeFeedback for PacketMetadata {
    fn set_truncated(&mut self)
        ensures
            final(self).truncated,
            final(self).timestamp == old(self).timestamp,
            final(self).capture_length == old(self).capture_length,
            final(self).length == old(self).length,
            final(self).interface_index == old(self).interface_index,
    {
        self.truncated = true;
    }
}

/// Relies on `SystemTime::now`: the current time, which nothing here can
/// predict, read as nanoseconds since the Unix epoch; zero when the clock
/// reads before the epoch.
#[verifier::external_body]
fn now_nanos() -> (r: u64) {
    match std::time::SystemTime::now().duration_since(std::time::UNIX_EPOCH) {
        Ok(d) => d.as_nanos() as u64,
        Err(_) => 0,
    }
}

/// A decoded layer, of one of the kinds the core knows.
#[derive(Debug)]
pub enum PacketLayer {
    Payload(Payload),
    Fragment(Fragment),
    Failure(DecodeFailure),
    /// A layer decoded outside the core, with its type, its bytes, and the
    /// outcome of verifying its checksum, which its decoder determined.
    Other(LayerType, BaseLayer, ChecksumOutcome),
}

impl Layer for PacketLayer {
    open spec fn spec_type_id(&self) -> LayerTypeID {
        match self {
            PacketLayer::Payload(l) => l.spec_type_id(),
            PacketLayer::Fragment(l) => l.spec_type_id(),
            PacketLayer::Failure(l) => l.spec_type_id(),
            PacketLayer::Other(t, _, _) => t.id,
        }
    }

    open spec fn spec_contents(&self) -> Option<Seq<u8>> {
        match self {
            PacketLayer::Payload(l) => l.spec_contents(),
            PacketLayer::Fragment(l) => l.spec_contents(),
            PacketLayer::Failure(l) => l.spec_contents(),
            PacketLayer::Other(_, b, _) => Some(b.spec_contents()),
        }
    }

    open spec fn spec_payload(&self) -> Option<Seq<u8>> {
        match self {
            PacketLayer::Payload(l) => l.spec_payload(),
            PacketLayer::Fragment(l) => l.spec_payload(),
            PacketLayer::Failure(l) => l.spec_payload(),
            PacketLayer::Other(_, b, _) => Some(b.spec_payload()),
        }
    }

    open spec fn spec_string(&self) -> Seq<char> {
        match self {
            PacketLayer::Payload(l) => l.spec_string(),
            PacketLayer::Fragment(l) => l.spec_string(),
            PacketLayer::Failure(l) => l.spec_string(),
            PacketLayer::Other(t, _, _) => t.name@,
        }
    }

    fn layer_type(&self) -> (r: LayerType) {
        match self {
            PacketLayer::Payload(l) => l.layer_type(),
            PacketLayer::Fragment(l) => l.layer_type(),
            PacketLayer::Failure(l) => l.layer_type(),
            PacketLayer::Other(t, _, _) => t.copy(),
        }
    }

    fn layer_contents(&self) -> (r: Option<Vec<u8>>) {
        match self {
            PacketLayer::Payload(l) => l.layer_contents(),
            PacketLayer::Fragment(l) => l.layer_contents(),
            PacketLayer::Failure(l) => l.layer_contents(),
            PacketLayer::Other(_, b, _) => Some(b.contents()),
        }
    }

    fn layer_payload(&self) -> (r: Option<Vec<u8>>) {
        match self {
            PacketLayer::Payload(l) => l.layer_payload(),
            PacketLayer::Fragment(l) => l.layer_payload(),
            PacketLayer::Failure(l) => l.layer_payload(),
            PacketLayer::Other(_, b, _) => Some(b.payload()),
        }
    }

    fn string(&self) -> (r: String) {
        match self {
            PacketLayer::Payload(l) => l.string(),
            PacketLayer::Fragment(l) => l.string(),
            PacketLayer::Failure(l) => l.string(),
            PacketLayer::Other(t, _, _) => t.name.clone(),
        }
    }
}

/// What verifying the layer's checksum gives: only layers decoded outside
/// the core carry one.
pub open spec fn checksum_outcome(l: PacketLayer) -> ChecksumOutcome {
    match l {
        PacketLayer::Other(_, _, c) => c,
        _ => ChecksumOutcome::NotSupported,
    }
}

impl LayerWithChecksum for PacketLayer {
    fn verify_checksum(&self) -> (r: Result<ChecksumVerificationResult, PacketError>)
        ensures
            checksum_outcome(*self) is NotSupported ==> (r matches Err(
                PacketError::MethodNotImplemented(_),
            )),
            checksum_outcome(*self) matches ChecksumOutcome::Verified(res) ==> r == Ok::<
                ChecksumVerificationResult,
                PacketError,
            >(res),
            checksum_outcome(*self) matches ChecksumOutcome::Failed(m) ==> (r matches Err(
                PacketError::VerifyChecksum(e),
            ) && e.message@ == m@),
    {
        match self {
            PacketLayer::Payload(l) => l.verify_checksum(),
            PacketLayer::Fragment(l) => l.verify_checksum(),
            PacketLayer::Failure(l) => l.verify_checksum(),
            PacketLayer::Other(_, _, c) => match c {
                ChecksumOutcome::NotSupported => Err(
                    PacketError::MethodNotImplemented(
                        MethodNotImplementedError::new("layer does not verify checksum", None),
                    ),
                ),
                ChecksumOutcome::Verified(res) => Ok(*res),
                ChecksumOutcome::Failed(m) => Err(
                    PacketError::VerifyChecksum(VerifyChecksumError::new(m.as_str(), None)),
                ),
            },
        }
    }
}

/// The layer decodes itself from bytes: payloads and fragments do.
pub open spec fn self_decoding(l: PacketLayer) -> bool {
    l is Payload || l is Fragment
}

impl PacketLayer {
    /// Fills the layer from `data`; only payloads and fragments can.
    pub fn decode_from_bytes<F: DecodeFeedback>(&mut self, data: &[u8], df: &mut F) -> (r: Result<
        (),
        PacketError,
    >)
        ensures
            self_decoding(*old(self)) ==> r is Ok && final(self).spec_contents() == Some(data@)
                && final(self).spec_type_id() == old(self).spec_type_id()
                && final(self).spec_payload() is None && self_decoding(*final(self)),
            !self_decoding(*old(self)) ==> (r matches Err(PacketError::MethodNotImplemented(_)))
                && *final(self) == *old(self),
            *final(df) == *old(df),
    {
        match self {
            PacketLayer::Payload(l) => {
                let _ = l.decode_from_bytes(data, df);
                Ok(())
            },
            PacketLayer::Fragment(l) => {
                let _ = l.decode_from_bytes(data, df);
                Ok(())
            },
            _ => Err(
                PacketError::MethodNotImplemented(
                    MethodNotImplementedError::new("layer does not decode from bytes", None),
                ),
            ),
        }
    }

    /// The type that decodes this layer's payload; id zero for payloads and
    /// fragments, which end decoding.
    pub fn next_layer_type(&self) -> (r: LayerType)
        ensures
            self_decoding(*self) ==> r.id == 0,
    {
        match self {
            PacketLayer::Payload(l) => l.next_layer_type(),
            PacketLayer::Fragment(l) => l.next_layer_type(),
            _ => LayerType::new(0, "LayerTypeZero", DecodeFunc::Unknown),
        }
    }
}

/// The slot of a layer class after a layer at `index` is offered to it:
/// the first layer offered stays.
pub open spec fn slot_after(slot: Option<usize>, index: usize) -> Option<usize> {
    if slot is None {
        Some(index)
    } else {
        slot
    }
}

/// The payload of the last layer added has no bytes, or there is none.
pub open spec fn empty_payload(l: PacketLayer) -> bool {
    match l.spec_payload() {
        Some(p) => p.len() == 0,
        None => true,
    }
}

/// The bytes a failure layer holds: the last layer's payload, or the whole
/// packet when no layer was added.
pub open spec fn undecoded(p: EagerPacket) -> Option<Seq<u8>> {
    if p.layers@.len() == 0 {
        Some(p.data@)
    } else {
        p.layers@.last().spec_payload()
    }
}

/// A packet: its bytes, its layers in decode order, and the first layer of
/// each class, as an index into the layers.
#[derive(Debug)]
pub struct EagerPacket {
    /// The entire packet data.
    pub data: Vec<u8>,
    /// Each layer decoded, in decode order.
    pub layers: Vec<PacketLayer>,
    pub metadata: PacketMetadata,
    pub decode_options: DecodeOptions,
    pub link: Option<usize>,
    pub network: Option<usize>,
    pub transport: Option<usize>,
    pub application: Option<usize>,
    pub failure: Option<usize>,
}

/// A packet whose storage came from a pool and goes back to it.
pub trait PooledPacket {
    /// Returns the packet's storage to its pool.
    fn dispose(&mut self);
}

/// The packet type that decode calls build.
pub type Packet = EagerPacket;

/// The slot is empty or points at one of the first `n` layers.
pub open spec fn slot_ok(slot: Option<usize>, n: nat) -> bool {
    slot matches Some(i) ==> i < n
}

impl EagerPacket {
    pub open spec fn wf(&self) -> bool {
        let n = self.layers@.len();
        &&& slot_ok(self.link, n)
        &&& slot_ok(self.network, n)
        &&& slot_ok(self.transport, n)
        &&& slot_ok(self.application, n)
        &&& slot_ok(self.failure, n)
    }

    /// All but the layers and the slots are as in `pre`.
    pub open spec fn keeps_frame(&self, pre: EagerPacket) -> bool {
        &&& self.data@ == pre.data@
        &&& self.metadata == pre.metadata
        &&& self.decode_options == pre.decode_options
    }

    /// All but the layers and the application slot are as in `pre`.
    pub open spec fn keeps_all_but_application(&self, pre: EagerPacket) -> bool {
        &&& self.keeps_frame(pre)
        &&& self.link == pre.link
        &&& self.network == pre.network
        &&& self.transport == pre.transport
        &&& self.failure == pre.failure
    }

    /// `self` is `pre` with one more layer, the new last one.
    pub open spec fn appends_one(&self, pre: EagerPacket) -> bool {
        &&& self.layers@.len() == pre.layers@.len() + 1
        &&& self.layers@.subrange(0, pre.layers@.len() as int) == pre.layers@
    }

    /// `self` is `pre` with a failure layer over the undecoded bytes added
    /// and offered to the error slot.
    pub open spec fn records_failure(&self, pre: EagerPacket) -> bool {
        &&& self.appends_one(pre)
        &&& self.layers@.last() is Failure
        &&& self.layers@.last().spec_type_id() == LAYER_TYPE_DECODE_FAILURE
        &&& self.layers@.last().spec_contents() == undecoded(pre)
        &&& self.failure == slot_after(pre.failure, pre.layers@.len() as usize)
        &&& self.keeps_frame(pre)
        &&& self.link == pre.link
        &&& self.network == pre.network
        &&& self.transport == pre.transport
        &&& self.application == pre.application
    }

    /// A packet over `data` with no layers yet.
    pub fn new(data: Vec<u8>, opts: DecodeOptions) -> (r: Self)
        ensures
            r.wf(),
            r.data@ == data@,
            r.layers@.len() == 0,
            r.decode_options == opts,
            !r.metadata.truncated,
            r.metadata.capture_length == 0,
            r.metadata.length == 0,
            r.metadata.interface_index == 0,
            r.link is None && r.network is None && r.transport is None,
            r.application is None && r.failure is None,
    {
        EagerPacket {
            data,
            layers: Vec::new(),
            metadata: PacketMetadata {
                timestamp: now_nanos(),
                capture_length: 0,
                length: 0,
                interface_index: 0,
                truncated: false,
            },
            decode_options: opts,
            link: None,
            network: None,
            transport: None,
            application: None,
            failure: None,
        }
    }

    /// Marks the packet as truncated.
    pub fn set_truncated(&mut self)
        ensures
            final(self).metadata.truncated,
            final(self).data == old(self).data,
            final(self).layers == old(self).layers,
    {
        self.metadata.truncated = true;
    }

    /// Appends a decoded layer; it becomes the last layer.
    pub fn add_layer(&mut self, layer: PacketLayer)
        requires
            old(self).wf(),
        ensures
            final(self).wf(),
            final(self).layers@ == old(self).layers@.push(layer),
            final(self).keeps_all_but_application(*old(self)),
            final(self).application == old(self).application,
    {
        self.layers.push(layer);
    }

    /// The number of layers added so far.
    pub fn layers_count(&self) -> (r: usize)
        ensures
            r == self.layers@.len(),
    {
        self.layers.len()
    }

    /// Offers the layer at `index` as the link layer; the first one stays.
    pub fn set_link_layer(&mut self, index: usize)
        requires
            old(self).wf(),
            index < old(self).layers@.len(),
        ensures
            final(self).wf(),
            final(self).link == slot_after(old(self).link, index),
            final(self).layers == old(self).layers,
            final(self).keeps_frame(*old(self)),
            final(self).network == old(self).network,
            final(self).transport == old(self).transport,
            final(self).application == old(self).application,
            final(self).failure == old(self).failure,
    {
        if self.link.is_none() {
            self.link = Some(index);
        }
    }

    /// Offers the layer at `index` as the network layer; the first one stays.
    pub fn set_network_layer(&mut self, index: usize)
        requires
            old(self).wf(),
            index < old(self).layers@.len(),
        ensures
            final(self).wf(),
            final(self).network == slot_after(old(self).network, index),
            final(self).layers == old(self).layers,
            final(self).keeps_frame(*old(self)),
            final(self).link == old(self).link,
            final(self).transport == old(self).transport,
            final(self).application == old(self).application,
            final(self).failure == old(self).failure,
    {
        if self.network.is_none() {
            self.network = Some(index);
        }
    }

    /// Offers the layer at `index` as the transport layer; the first one
    /// stays.
    pub fn set_transport_layer(&mut self, index: usize)
        requires
            old(self).wf(),
            index < old(self).layers@.len(),
        ensures
            final(self).wf(),
            final(self).transport == slot_after(old(self).transport, index),
            final(self).layers == old(self).layers,
            final(self).keeps_frame(*old(self)),
            final(self).link == old(self).link,
            final(self).network == old(self).network,
            final(self).application == old(self).application,
            final(self).failure == old(self).failure,
    {
        if self.transport.is_none() {
            self.transport = Some(index);
        }
    }

    /// Offers the layer at `index` as the application layer; the first one
    /// stays.
    pub fn set_application_layer(&mut self, index: usize)
        requires
            old(self).wf(),
            index < old(self).layers@.len(),
        ensures
            final(self).wf(),
            final(self).application == slot_after(old(self).application, index),
            final(self).layers == old(self).layers,
            final(self).keeps_all_but_application(*old(self)),
    {
        if self.application.is_none() {
            self.application = Some(index);
        }
    }

    /// Offers the layer at `index` as the error layer; the first one stays.
    pub fn set_error_layer(&mut self, index: usize)
        requires
            old(self).wf(),
            index < old(self).layers@.len(),
        ensures
            final(self).wf(),
            final(self).failure == slot_after(old(self).failure, index),
            final(self).layers == old(self).layers,
            final(self).keeps_frame(*old(self)),
            final(self).link == old(self).link,
            final(self).network == old(self).network,
            final(self).transport == old(self).transport,
            final(self).application == old(self).application,
    {
        if self.failure.is_none() {
            self.failure = Some(index);
        }
    }

    /// Decodes the last layer's payload with `next`. Fails when no layer was
    /// added yet; does nothing when that payload is absent or empty.
    pub fn next_decoder(&mut self, next: DecodeFunc) -> (r: Result<(), DecodeError>)
        requires
            old(self).wf(),
        ensures
            final(self).wf(),
            old(self).layers@.len() == 0 ==> *final(self) == *old(self) && (r matches Err(e)
                && e.message@ == "next_decoder called, but no last layers found"@),
            old(self).layers@.len() > 0 && empty_payload(old(self).layers@.last())
                ==> *final(self) == *old(self) && r is Ok,
            old(self).layers@.len() > 0 && !empty_payload(old(self).layers@.last()) ==> decoded_by(
                next,
                old(self).layers@.last().spec_payload().unwrap(),
                *old(self),
                *final(self),
                r is Ok,
            ),
    {
        let n = self.layers.len();
        if n == 0 {
            return Err(
                DecodeError::new("next_decoder called, but no last layers found", None),
            );
        }
        match self.layers[n - 1].layer_payload() {
            None => Ok(()),
            Some(payload) => {
                if payload.len() == 0 {
                    Ok(())
                } else {
                    next.decode(payload.as_slice(), self)
                }
            },
        }
    }

    /// The options the packet is decoded with.
    pub fn decode_options(&self) -> (r: DecodeOptions)
        ensures
            r == self.decode_options,
    {
        self.decode_options
    }

    /// The part of the packet that decoders report truncation to, and
    /// nothing else.
    pub fn as_decode_feedback(&mut self) -> (r: &mut PacketMetadata)
        ensures
            *r == old(self).metadata,
            final(self).metadata == *final(r),
            final(self).layers == old(self).layers,
            final(self).data == old(self).data,
            final(self).decode_options == old(self).decode_options,
            final(self).link == old(self).link,
            final(self).network == old(self).network,
            final(self).transport == old(self).transport,
            final(self).application == old(self).application,
            final(self).failure == old(self).failure,
    {
        &mut self.metadata
    }

    /// The packet's metadata.
    pub fn metadata(&self) -> (r: &PacketMetadata)
        ensures
            *r == self.metadata,
    {
        &self.metadata
    }

    /// Records `err` as the packet's failure: a failure layer over the bytes
    /// not yet decoded is appended and offered to the error slot.
    pub fn add_final_decode_error(&mut self, err: DecodeError)
        requires
            old(self).wf(),
        ensures
            final(self).wf(),
            final(self).records_failure(*old(self)),
            final(self).layers@.last() matches PacketLayer::Failure(f) && f.err == err
                && f.stack@.len() == 0,
    {
        let n = self.layers.len();
        let in_data = if n == 0 {
            Some(copy_bytes(&self.data))
        } else {
            self.layers[n - 1].layer_payload()
        };
        let failure = DecodeFailure { in_data, err, stack: Vec::new() };
        self.add_layer(PacketLayer::Failure(failure));
        self.set_error_layer(n);
        assert(self.layers@.subrange(0, n as int) =~= old(self).layers@);
    }

    /// Records a failure layer unless the options hand errors to the caller.
    pub fn recover_decode_error(&mut self)
        requires
            old(self).wf(),
        ensures
            final(self).wf(),
            old(self).decode_options.skip_decode_recovery ==> *final(self) == *old(self),
            !old(self).decode_options.skip_decode_recovery ==> final(self).records_failure(
                *old(self),
            ) && (final(self).layers@.last() matches PacketLayer::Failure(f)
                && f.err.message@ == "recover decode error"@ && f.err.source is None),
    {
        if !self.decode_options.skip_decode_recovery {
            self.add_final_decode_error(DecodeError::new("recover decode error", None));
        }
    }

    /// Decodes the packet's bytes with `dec`, then whatever decoders it
    /// chains to. A decode error becomes a failure layer and the call
    /// succeeds, unless the options hand errors to the caller.
    pub fn initial_decode(&mut self, dec: DecodeFunc) -> (r: Result<(), DecodeError>)
        requires
            old(self).wf(),
        ensures
            final(self).wf(),
            !decode_fails(dec) ==> r is Ok && decoded_by(
                dec,
                old(self).data@,
                *old(self),
                *final(self),
                true,
            ),
            decode_fails(dec) && old(self).decode_options.skip_decode_recovery ==> (r matches Err(
                e,
            ) && unknown_type_error(e)) && *final(self) == *old(self),
            decode_fails(dec) && !old(self).decode_options.skip_decode_recovery ==> r is Ok
                && final(self).records_failure(*old(self)) && (final(self).layers@.last() matches PacketLayer::Failure(f)
                && unknown_type_error(f.err)),
    {
        let data = copy_bytes(&self.data);
        let res = dec.decode(data.as_slice(), self);
        match res {
            Ok(()) => Ok(()),
            Err(e) => {
                if self.decode_options.skip_decode_recovery {
                    Err(e)
                } else {
                    self.add_final_decode_error(e);
                    Ok(())
                }
            },
        }
    }
}

/// `i` is the first position in `layers` whose layer type satisfies `pred`.
pub open spec fn is_first_match(layers: Seq<PacketLayer>, i: int, pred: spec_fn(LayerTypeID) -> bool) -> bool {
    &&& 0 <= i < layers.len()
    &&& pred(layers[i].spec_type_id())
    &&& forall|j: int| 0 <= j < i ==> !pred(#[trigger] layers[j].spec_type_id())
}

/// No layer's type satisfies `pred`.
pub open spec fn no_match(layers: Seq<PacketLayer>, pred: spec_fn(LayerTypeID) -> bool) -> bool {
    forall|j: int| 0 <= j < layers.len() ==> !pred(#[trigger] layers[j].spec_type_id())
}

/// The layer a class slot points to.
pub open spec fn slot_layer(layers: Seq<PacketLayer>, slot: Option<usize>) -> Option<PacketLayer> {
    match slot {
        Some(i) => Some(layers[i as int]),
        None => None,
    }
}

impl EagerPacket {
    /// The bytes of the whole packet.
    pub fn data(&self) -> (r: &[u8])
        ensures
            r@ == self.data@,
    {
        self.data.as_slice()
    }

    /// All layers, in decode order.
    pub fn layers(&self) -> (r: &[PacketLayer])
        ensures
            r@ == self.layers@,
    {
        self.layers.as_slice()
    }

    /// The first layer of type `layer_type`.
    pub fn layer(&self, layer_type: LayerTypeID) -> (r: Option<&PacketLayer>)
        ensures
            r is None ==> no_match(self.layers@, |t: LayerTypeID| t == layer_type),
            r matches Some(l) ==> exists|i: int|
                is_first_match(self.layers@, i, |t: LayerTypeID| t == layer_type)
                    && self.layers@[i] == *l,
    {
        let mut i: usize = 0;
        while i < self.layers.len()
            invariant
                i <= self.layers@.len(),
                forall|j: int| 0 <= j < i ==> #[trigger] self.layers@[j].spec_type_id() != layer_type,
            decreases self.layers@.len() - i,
        {
            let t = self.layers[i].layer_type();
            if t.id == layer_type {
                assert(is_first_match(self.layers@, i as int, |t: LayerTypeID| t == layer_type));
                return Some(&self.layers[i]);
            }
            i = i + 1;
        }
        None
    }

    /// The first layer whose type belongs to `layer_class`.
    pub fn layer_class<C: LayerClass>(&self, layer_class: &C) -> (r: Option<&PacketLayer>)
        ensures
            r is None ==> no_match(self.layers@, |t: LayerTypeID| layer_class.spec_contains(t)),
            r matches Some(l) ==> exists|i: int|
                is_first_match(self.layers@, i, |t: LayerTypeID| layer_class.spec_contains(t))
                    && self.layers@[i] == *l,
    {
        let mut i: usize = 0;
        while i < self.layers.len()
            invariant
                i <= self.layers@.len(),
                forall|j: int|
                    0 <= j < i ==> !layer_class.spec_contains(
                        #[trigger] self.layers@[j].spec_type_id(),
                    ),
            decreases self.layers@.len() - i,
        {
            let t = self.layers[i].layer_type();
            if layer_class.contains(t.id) {
                assert(is_first_match(
                    self.layers@,
                    i as int,
                    |t: LayerTypeID| layer_class.spec_contains(t),
                ));
                return Some(&self.layers[i]);
            }
            i = i + 1;
        }
        None
    }

    fn slot(&self, slot: Option<usize>) -> (r: Option<&PacketLayer>)
        requires
            slot_ok(slot, self.layers@.len()),
        ensures
            match r {
                Some(l) => slot_layer(self.layers@, slot) == Some(*l),
                None => slot is None,
            },
    {
        match slot {
            Some(i) => Some(&self.layers[i]),
            None => None,
        }
    }

    /// The first link layer offered.
    pub fn link_layer(&self) -> (r: Option<&PacketLayer>)
        requires
            self.wf(),
        ensures
            match r {
                Some(l) => slot_layer(self.layers@, self.link) == Some(*l),
                None => self.link is None,
            },
    {
        self.slot(self.link)
    }

    /// The first network layer offered.
    pub fn network_layer(&self) -> (r: Option<&PacketLayer>)
        requires
            self.wf(),
        ensures
            match r {
                Some(l) => slot_layer(self.layers@, self.network) == Some(*l),
                None => self.network is None,
            },
    {
        self.slot(self.network)
    }

    /// The first transport layer offered.
    pub fn transport_layer(&self) -> (r: Option<&PacketLayer>)
        requires
            self.wf(),
        ensures
            match r {
                Some(l) => slot_layer(self.layers@, self.transport) == Some(*l),
                None => self.transport is None,
            },
    {
        self.slot(self.transport)
    }

    /// The first application layer offered.
    pub fn application_layer(&self) -> (r: Option<&PacketLayer>)
        requires
            self.wf(),
        ensures
            match r {
                Some(l) => slot_layer(self.layers@, self.application) == Some(*l),
                None => self.application is None,
            },
    {
        self.slot(self.application)
    }

    /// The failure layer, if decoding failed; none when the whole packet
    /// was decoded.
    pub fn error_layer(&self) -> (r: Option<&PacketLayer>)
        requires
            self.wf(),
        ensures
            match r {
                Some(l) => slot_layer(self.layers@, self.failure) == Some(*l),
                None => self.failure is None,
            },
    {
        self.slot(self.failure)
    }

    /// Verifies the checksum of each layer that has one, in decode order.
    /// Layers without one are skipped; the first layer whose verification
    /// itself fails stops the walk with an error that names its position,
    /// counted from one; checksums found not to match are collected and
    /// returned.
    pub fn verify_checksums(&self) -> (r: Result<Vec<ChecksumMismatch>, VerifyChecksumError>)
        ensures
            r is Err <==> exists|i: int|
                0 <= i < self.layers@.len() && checksum_outcome(
                    #[trigger] self.layers@[i],
                ) is Failed,
            r matches Ok(v) ==> v@ == mismatches_in(self.layers@, self.layers@.len()),
            r matches Err(e) ==> exists|i: int|
                first_failure(self.layers@, i) && e.message@
                    == "could not verify checksum for layer "@ + decimal((i + 1) as nat),
    {
        let mut mismatches: Vec<ChecksumMismatch> = Vec::new();
        let mut i: usize = 0;
        while i < self.layers.len()
            invariant
                i <= self.layers@.len(),
                mismatches@ == mismatches_in(self.layers@, i as nat),
                forall|j: int|
                    0 <= j < i ==> !(checksum_outcome(#[trigger] self.layers@[j]) is Failed),
            decreases self.layers@.len() - i,
        {
            let layer = &self.layers[i];
            match layer.verify_checksum() {
                Ok(result) => {
                    if !result.valid {
                        let t = layer.layer_type();
                        mismatches.push(ChecksumMismatch { result, layer_type: t.id, layer_index: i });
                    }
                },
                Err(PacketError::VerifyChecksum(e)) => {
                    let mut msg = "could not verify checksum for layer ".to_owned();
                    msg.append(decimal_text(i + 1).as_str());
                    assert(first_failure(self.layers@, i as int));
                    return Err(VerifyChecksumError::new(
                        msg.as_str(),
                        Some(Box::new(PacketError::VerifyChecksum(e))),
                    ));
                },
                Err(_) => {},
            }
            i = i + 1;
            assert(mismatches@ =~= mismatches_in(self.layers@, i as nat));
        }
        Ok(mismatches)
    }
}

/// The layer at `i` is the first whose checksum verification fails.
pub open spec fn first_failure(layers: Seq<PacketLayer>, i: int) -> bool {
    &&& 0 <= i < layers.len()
    &&& checksum_outcome(layers[i]) is Failed
    &&& forall|j: int| 0 <= j < i ==> !(checksum_outcome(#[trigger] layers[j]) is Failed)
}

/// The mismatches found among the first `n` layers, in decode order.
pub open spec fn mismatches_in(layers: Seq<PacketLayer>, n: nat) -> Seq<ChecksumMismatch>
    decreases n,
{
    if n == 0 || n > layers.len() {
        Seq::empty()
    } else {
        mismatches_in(layers, (n - 1) as nat) + match checksum_outcome(layers[n - 1]) {
            ChecksumOutcome::Verified(res) => if !res.valid {
                seq![
                    ChecksumMismatch {
                        result: res,
                        layer_type: layers[n - 1].spec_type_id(),
                        layer_index: (n - 1) as usize,
                    },
                ]
            } else {
                Seq::empty()
            },
            _ => Seq::empty(),
        }
    }
}

/// Decodes `data` into `layer`, appends the layer to `builder`, and hands
/// its payload to the decoder of the type it names next, unless that type is
/// zero. A layer that cannot decode itself gives an error and leaves the
/// builder as it was.
pub fn decoding_layer_decoder(
    layer: PacketLayer,
    data: &[u8],
    builder: &mut EagerPacket,
) -> (r: Result<(), DecodeError>)
    requires
        old(builder).wf(),
    ensures
        final(builder).wf(),
        !self_decoding(layer) ==> *final(builder) == *old(builder) && (r matches Err(e)
            && e.message@ == "no decoding layer method found"@ && (e.source matches Some(cause)
            && *cause is MethodNotImplemented)),
        self_decoding(layer) ==> r is Ok && final(builder).appends_one(*old(builder))
            && final(builder).layers@.last().spec_type_id() == layer.spec_type_id()
            && final(builder).layers@.last().spec_contents() == Some(data@)
            && final(builder).keeps_all_but_application(*old(builder))
            && final(builder).application == old(builder).application,
{
    let mut layer = layer;
    match layer.decode_from_bytes(data, builder.as_decode_feedback()) {
        Ok(()) => {},
        Err(PacketError::Decode(e)) => {
            return Err(e);
        },
        Err(e) => {
            return Err(DecodeError::new("no decoding layer method found", Some(Box::new(e))));
        },
    }
    let next = layer.next_layer_type();
    let n = builder.layers_count();
    builder.add_layer(layer);
    assert(builder.layers@.subrange(0, n as int) =~= old(builder).layers@);
    if next.id == 0 {
        return Ok(());
    }
    builder.next_decoder(next.decoder)
}

/// A packet over `data`, decoded with `first_layer_decoder` and the
/// decoders it chains to; see `EagerPacket::initial_decode`.
pub fn new_packet(data: Vec<u8>, first_layer_decoder: DecodeFunc, options: DecodeOptions) -> (r:
    Result<EagerPacket, DecodeError>)
    ensures
        r matches Ok(p) ==> p.wf() && p.data@ == data@ && p.decode_options == options,
        !decode_fails(first_layer_decoder) ==> (r matches Ok(p) && p.layers@.len() == 1
            && p.layers@[0].spec_contents() == Some(data@) && p.application == Some(0usize)
            && p.failure is None),
        decode_fails(first_layer_decoder) && options.skip_decode_recovery ==> (r matches Err(e)
            && unknown_type_error(e)),
        decode_fails(first_layer_decoder) && !options.skip_decode_recovery ==> (r matches Ok(p)
            && p.layers@.len() == 1 && p.layers@[0].spec_contents() == Some(data@) && p.failure
            == Some(0usize) && p.application is None && (p.layers@[0] matches PacketLayer::Failure(
            f,
        ) && unknown_type_error(f.err))),
{
    let mut p = EagerPacket::new(data, options);
    match p.initial_decode(first_layer_decoder) {
        Ok(()) => Ok(p),
        Err(e) => Err(e),
    }
}

/// Optional bytes, none read as no bytes.
pub open spec fn or_empty(o: Option<Seq<u8>>) -> Seq<u8> {
    match o {
        Some(b) => b,
        None => Seq::empty(),
    }
}

/// The layer's description, its diagnostic dump when it has a non-empty
/// one, then its contents in hexadecimal, each on a line of its own.
pub open spec fn layer_dump_text(l: PacketLayer) -> Seq<char> {
    let extra = match l {
        PacketLayer::Failure(f) => if lossy_utf8(f.stack@).len() > 0 {
            lossy_utf8(f.stack@) + "\n"@
        } else {
            Seq::empty()
        },
        _ => Seq::empty(),
    };
    l.spec_string() + "\n"@ + extra + hex_of(or_empty(l.spec_contents())) + "\n"@
}

/// A verbose description of a layer: its string, its dump, and a hex dump
/// of its contents.
pub fn layer_dump(layer: &PacketLayer) -> (r: String)
    ensures
        r@ == layer_dump_text(*layer),
{
    let mut out = layer.string();
    out.append("\n");
    match layer {
        PacketLayer::Failure(f) => {
            let d = f.dump();
            if d.as_str().unicode_len() > 0 {
                out.append(d.as_str());
                out.append("\n");
            }
        },
        _ => {},
    }
    let contents = match layer.layer_contents() {
        Some(c) => c,
        None => Vec::new(),
    };
    out.append(hex_text(contents.as_slice()).as_str());
    out.append("\n");
    out
}

/// The first line of a packet's description.
pub open spec fn packet_header_text(p: EagerPacket) -> Seq<char> {
    "Packet: "@ + decimal(p.data@.len()) + " bytes"@ + (if p.metadata.truncated {
        ", truncated"@
    } else {
        Seq::empty()
    }) + (if p.metadata.length > 0 {
        ", wire length: "@ + decimal(p.metadata.length as nat) + " cap length: "@ + decimal(
            p.metadata.capture_length as nat,
        )
    } else {
        Seq::empty()
    }) + " @ "@ + decimal(p.metadata.timestamp as nat) + "\n"@
}

/// The description lines of the first `k` layers.
pub open spec fn layer_lines(layers: Seq<PacketLayer>, k: nat) -> Seq<char>
    decreases k,
{
    if k == 0 || k > layers.len() {
        Seq::empty()
    } else {
        let l = layers[k - 1];
        layer_lines(layers, (k - 1) as nat) + "- Layer "@ + decimal(k) + " ("@ + decimal(
            opt_len(l.spec_contents()),
        ) + " bytes) = "@ + l.spec_string() + "\n"@
    }
}

/// The hex dump sections of the first `k` layers.
pub open spec fn layer_dumps(layers: Seq<PacketLayer>, k: nat) -> Seq<char>
    decreases k,
{
    if k == 0 || k > layers.len() {
        Seq::empty()
    } else {
        layer_dumps(layers, (k - 1) as nat) + "--- Layer "@ + decimal(k) + " ---\n"@
            + layer_dump_text(layers[k - 1]) + "\n"@
    }
}

impl EagerPacket {
    /// A description of the packet: its size, truncation, lengths and time,
    /// then one line per layer.
    pub fn packet_string(&self) -> (r: String)
        ensures
            r@ == packet_header_text(*self) + layer_lines(self.layers@, self.layers@.len()),
    {
        let mut out = "Packet: ".to_owned();
        out.append(decimal_text(self.data.len()).as_str());
        out.append(" bytes");
        let ghost a = out@;
        if self.metadata.truncated {
            out.append(", truncated");
        }
        let ghost b = out@;
        assert(b =~= a + (if self.metadata.truncated {
            ", truncated"@
        } else {
            Seq::empty()
        }));
        if self.metadata.length > 0 {
            out.append(", wire length: ");
            out.append(decimal_text(self.metadata.length).as_str());
            out.append(" cap length: ");
            out.append(decimal_text(self.metadata.capture_length).as_str());
        }
        assert(out@ =~= b + (if self.metadata.length > 0 {
            ", wire length: "@ + decimal(self.metadata.length as nat) + " cap length: "@ + decimal(
                self.metadata.capture_length as nat,
            )
        } else {
            Seq::empty()
        }));
        out.append(" @ ");
        out.append(decimal_text_u64(self.metadata.timestamp).as_str());
        out.append("\n");
        assert(out@ =~= packet_header_text(*self) + layer_lines(self.layers@, 0));
        let mut i: usize = 0;
        while i < self.layers.len()
            invariant
                i <= self.layers@.len(),
                out@ == packet_header_text(*self) + layer_lines(self.layers@, i as nat),
            decreases self.layers@.len() - i,
        {
            let layer = &self.layers[i];
            let n: usize = match layer.layer_contents() {
                Some(c) => c.len(),
                None => 0,
            };
            out.append("- Layer ");
            out.append(decimal_text(i + 1).as_str());
            out.append(" (");
            out.append(decimal_text(n).as_str());
            out.append(" bytes) = ");
            out.append(layer.string().as_str());
            out.append("\n");
            i = i + 1;
            assert(out@ =~= packet_header_text(*self) + layer_lines(self.layers@, i as nat));
        }
        out
    }

    /// A verbose description of the packet: a hex dump of all its bytes,
    /// then a dump of each layer.
    pub fn packet_dump(&self) -> (r: String)
        ensures
            r@ == "-- FULL PACKET DATA ("@ + decimal(self.data@.len())
                + " bytes) ------------------------------------\n"@ + hex_of(self.data@) + "\n"@
                + layer_dumps(self.layers@, self.layers@.len()),
    {
        let mut out = "-- FULL PACKET DATA (".to_owned();
        out.append(decimal_text(self.data.len()).as_str());
        out.append(" bytes) ------------------------------------\n");
        out.append(hex_text(self.data.as_slice()).as_str());
        out.append("\n");
        let ghost head = out@;
        let mut i: usize = 0;
        while i < self.layers.len()
            invariant
                i <= self.layers@.len(),
                out@ == head + layer_dumps(self.layers@, i as nat),
            decreases self.layers@.len() - i,
        {
            out.append("--- Layer ");
            out.append(decimal_text(i + 1).as_str());
            out.append(" ---\n");
            out.append(layer_dump(&self.layers[i]).as_str());
            out.append("\n");
            i = i + 1;
            assert(out@ =~= head + layer_dumps(self.layers@, i as nat));
        }
        out
    }
}

/// Offering a class slot a layer after it holds one changes nothing: of
/// two `set_*_layer` calls on one slot, the first one's layer stays.
pub proof fn lemma_first_layer_stays(slot: Option<usize>, first: usize, second: usize)
    ensures
        slot_after(slot_after(slot, first), second) == slot_after(slot, first),
        slot is None ==> slot_after(slot_after(slot, first), second) == Some(first),
{
}

/// A free list of emptied byte buffers, reused to spare allocations.
#[derive(Debug)]
pub struct BytePool {
    pool: Vec<Vec<u8>>,
    capacity: usize,
}

impl BytePool {
    pub closed spec fn wf(&self) -> bool {
        forall|i: int| 0 <= i < self.pool@.len() ==> (#[trigger] self.pool@[i])@.len() == 0
    }

    /// Number of buffers waiting in the pool.
    pub closed spec fn size(&self) -> nat {
        self.pool@.len()
    }

    /// The capacity of the buffers the pool makes and keeps.
    pub closed spec fn buffer_capacity(&self) -> usize {
        self.capacity
    }

    /// An empty pool of buffers of `capacity` bytes.
    pub fn new(capacity: usize) -> (r: Self)
        ensures
            r.wf(),
            r.size() == 0,
            r.buffer_capacity() == capacity,
    {
        BytePool { pool: Vec::new(), capacity }
    }

    /// An empty buffer: one from the pool, or a new one when it is empty.
    pub fn get(&mut self) -> (r: Vec<u8>)
        requires
            old(self).wf(),
        ensures
            final(self).wf(),
            r@.len() == 0,
            old(self).size() > 0 ==> final(self).size() == old(self).size() - 1,
            old(self).size() == 0 ==> final(self).size() == 0,
            final(self).buffer_capacity() == old(self).buffer_capacity(),
    {
        match self.pool.pop() {
            Some(v) => v,
            None => Vec::with_capacity(self.capacity),
        }
    }

    /// Empties `vec` and keeps it for reuse, unless its capacity is larger
    /// than the pool's.
    pub fn put(&mut self, vec: Vec<u8>)
        requires
            old(self).wf(),
        ensures
            final(self).wf(),
            final(self).size() == old(self).size() || final(self).size() == old(self).size() + 1,
            final(self).buffer_capacity() == old(self).buffer_capacity(),
    {
        let capacity = vec_capacity(&vec);
        self.recycle(vec, capacity);
    }

    /// Empties `vec`, whose capacity is `vec_capacity`, and keeps it for
    /// reuse exactly when that capacity is at most the pool's.
    pub fn recycle(&mut self, vec: Vec<u8>, vec_capacity: usize)
        requires
            old(self).wf(),
        ensures
            final(self).wf(),
            vec_capacity <= old(self).buffer_capacity() ==> final(self).size() == old(self).size()
                + 1,
            vec_capacity > old(self).buffer_capacity() ==> final(self).size() == old(self).size(),
            final(self).buffer_capacity() == old(self).buffer_capacity(),
    {
        let mut vec = vec;
        if vec_capacity <= self.capacity {
            vec.clear();
            self.pool.push(vec);
        }
    }
}

} // verus!
