//! The decode dispatch protocol: decode functions, the feedback capability
//! that decoders report truncation through, and the builder surface.
use crate::base::{Fragment, Layer, Payload, Payloadable, LAYER_TYPE_FRAGMENT, LAYER_TYPE_PAYLOAD};
use crate::error::{DecodeError, ErrorDecodeable};
use crate::layertype::{DecodeFunc, LayerTypeID, LayerTypes};
use crate::packet::{slot_after, DecodeOptions, EagerPacket, PacketLayer};
use vstd::prelude::*;

verus! {

/// Receives what a decoder finds out about the packet while decoding it.
pub trait DecodeFeedback {
    /// Marks the packet as shorter than its headers declare.
    fn set_truncated(&mut self);
}

/// What decoders use to record the layers they decode and to hand the
/// rest of the bytes on. Only the first layer offered to each class slot
/// stays there.
pub trait PacketBuilder: DecodeFeedback {
    /// The builder's state is consistent.
    spec fn ready(&self) -> bool;

    /// The number of layers added so far.
    spec fn count(&self) -> nat;

    /// Appends a decoded layer; it becomes the last one.
    fn add_layer(&mut self, layer: PacketLayer)
        requires
            old(self).ready(),
        ensures
            final(self).ready(),
            final(self).count() == old(self).count() + 1,
    ;

    fn set_link_layer(&mut self, index: usize)
        requires
            old(self).ready(),
            index < old(self).count(),
        ensures
            final(self).ready(),
            final(self).count() == old(self).count(),
    ;

    fn set_network_layer(&mut self, index: usize)
        requires
            old(self).ready(),
            index < old(self).count(),
        ensures
            final(self).ready(),
            final(self).count() == old(self).count(),
    ;

    fn set_transport_layer(&mut self, index: usize)
        requires
            old(self).ready(),
            index < old(self).count(),
        ensures
            final(self).ready(),
            final(self).count() == old(self).count(),
    ;

    fn set_application_layer(&mut self, index: usize)
        requires
            old(self).ready(),
            index < old(self).count(),
        ensures
            final(self).ready(),
            final(self).count() == old(self).count(),
    ;

    fn set_error_layer(&mut self, index: usize)
        requires
            old(self).ready(),
            index < old(self).count(),
        ensures
            final(self).ready(),
            final(self).count() == old(self).count(),
    ;

    /// Decodes the last layer's payload with `next`; fails when no layer
    /// was added yet.
    fn next_decoder(&mut self, next: DecodeFunc) -> (r: Result<(), DecodeError>)
        requires
            old(self).ready(),
        ensures
            final(self).ready(),
            old(self).count() == 0 ==> r is Err,
    ;

    /// The options the packet is decoded with.
    fn decode_options(&self) -> DecodeOptions;

    fn layers_count(&self) -> (r: usize)
        ensures
            r == self.count(),
    ;
}

impl DecodeFeedback for EagerPacket {
    fn set_truncated(&mut self)
        ensures
            final(self).metadata.truncated,
            final(self).layers == old(self).layers,
    {
        EagerPacket::set_truncated(self)
    }
}

impl PacketBuilder for EagerPacket {
    open spec fn ready(&self) -> bool {
        self.wf()
    }

    open spec fn count(&self) -> nat {
        self.layers@.len()
    }

    fn add_layer(&mut self, layer: PacketLayer) {
        EagerPacket::add_layer(self, layer)
    }

    fn set_link_layer(&mut self, index: usize) {
        EagerPacket::set_link_layer(self, index)
    }

    fn set_network_layer(&mut self, index: usize) {
        EagerPacket::set_network_layer(self, index)
    }

    fn set_transport_layer(&mut self, index: usize) {
        EagerPacket::set_transport_layer(self, index)
    }

    fn set_application_layer(&mut self, index: usize) {
        EagerPacket::set_application_layer(self, index)
    }

    fn set_error_layer(&mut self, index: usize) {
        EagerPacket::set_error_layer(self, index)
    }

    fn next_decoder(&mut self, next: DecodeFunc) -> (r: Result<(), DecodeError>) {
        EagerPacket::next_decoder(self, next)
    }

    fn decode_options(&self) -> DecodeOptions {
        EagerPacket::decode_options(self)
    }

    fn layers_count(&self) -> (r: usize) {
        EagerPacket::layers_count(self)
    }
}

/// Feedback that records nothing.
#[derive(Debug, Clone, Copy, Default)]
pub struct NilDecodeFeedback;

impl DecodeFeedback for NilDecodeFeedback {
    fn set_truncated(&mut self) {
    }
}

/// The decode function fails whatever the bytes.
pub open spec fn decode_fails(f: DecodeFunc) -> bool {
    f is Unknown
}

/// The error of the decode function that always fails: its message, and
/// no cause.
pub open spec fn unknown_type_error(e: DecodeError) -> bool {
    e.message@ == "decode unknown layer type"@ && e.source is None
}

/// `post` is `pre` with one layer of type `type_id` holding `data` appended,
/// and offered to the application slot.
pub open spec fn appends_application(
    pre: EagerPacket,
    post: EagerPacket,
    type_id: LayerTypeID,
    data: Seq<u8>,
) -> bool {
    &&& post.appends_one(pre)
    &&& post.layers@.last().spec_type_id() == type_id
    &&& post.layers@.last().spec_contents() == Some(data)
    &&& post.layers@.last().spec_payload() is None
    &&& post.application == slot_after(pre.application, pre.layers@.len() as usize)
    &&& post.keeps_all_but_application(pre)
}

/// What decoding `data` with `f` does to the packet `pre`: `ok` tells
/// whether it succeeds, `post` is the packet afterwards.
pub open spec fn decoded_by(
    f: DecodeFunc,
    data: Seq<u8>,
    pre: EagerPacket,
    post: EagerPacket,
    ok: bool,
) -> bool {
    &&& ok == !decode_fails(f)
    &&& match f {
        DecodeFunc::Unknown => post == pre,
        DecodeFunc::Payload => appends_application(pre, post, LAYER_TYPE_PAYLOAD, data),
        DecodeFunc::Fragment => appends_application(pre, post, LAYER_TYPE_FRAGMENT, data),
    }
}

impl DecodeFunc {
    /// Decodes `data` into `builder` with this function.
    pub fn decode(self, data: &[u8], builder: &mut EagerPacket) -> (r: Result<(), DecodeError>)
        requires
            old(builder).wf(),
        ensures
            final(builder).wf(),
            decoded_by(self, data@, *old(builder), *final(builder), r is Ok),
            r matches Err(e) ==> unknown_type_error(e),
    {
        match self {
            DecodeFunc::Unknown => create_decode_unknown(data, builder),
            DecodeFunc::Payload => create_decode_payload(data, builder),
            DecodeFunc::Fragment => decode_fragment(data, builder),
        }
    }
}

/// The decode function that the core provides for a reserved layer type.
pub fn decoder_builder(layer_type: LayerTypes) -> (r: DecodeFunc)
    ensures
        layer_type is LayerTypeZero ==> r == DecodeFunc::Unknown,
        layer_type is LayerTypeDecodeFailure ==> r == DecodeFunc::Unknown,
        layer_type is LayerTypePayload ==> r == DecodeFunc::Payload,
        layer_type is LayerTypeFragment ==> r == DecodeFunc::Fragment,
{
    match layer_type {
        LayerTypes::LayerTypeZero => DecodeFunc::Unknown,
        LayerTypes::LayerTypeDecodeFailure => DecodeFunc::Unknown,
        LayerTypes::LayerTypePayload => DecodeFunc::Payload,
        LayerTypes::LayerTypeFragment => DecodeFunc::Fragment,
    }
}

/// The decode function for fragments.
pub fn fragment_decoder() -> (r: DecodeFunc)
    ensures
        r == DecodeFunc::Fragment,
{
    DecodeFunc::Fragment
}

/// Fails: the layer type cannot be decoded.
pub fn create_decode_unknown(data: &[u8], builder: &mut EagerPacket) -> (r: Result<
    (),
    DecodeError,
>)
    ensures
        *final(builder) == *old(builder),
        r matches Err(e) && unknown_type_error(e),
{
    Err(DecodeError::new("decode unknown layer type", None))
}

/// Decodes all of `data` as one payload layer, which becomes the
/// application layer unless one was set before.
pub fn create_decode_payload(data: &[u8], builder: &mut EagerPacket) -> (r: Result<
    (),
    DecodeError,
>)
    requires
        old(builder).wf(),
    ensures
        final(builder).wf(),
        r is Ok,
        appends_application(*old(builder), *final(builder), LAYER_TYPE_PAYLOAD, data@),
{
    let mut payload = Payload::new();
    let _ = payload.decode_from_bytes(data, builder.as_decode_feedback());
    let index = builder.layers_count();
    builder.add_layer(PacketLayer::Payload(payload));
    builder.set_application_layer(index);
    assert(builder.layers@.subrange(0, index as int) =~= old(builder).layers@);
    Ok(())
}

/// Decodes all of `data` as one fragment layer, which becomes the
/// application layer unless one was set before.
pub fn decode_fragment(data: &[u8], builder: &mut EagerPacket) -> (r: Result<(), DecodeError>)
    requires
        old(builder).wf(),
    ensures
        final(builder).wf(),
        r is Ok,
        appends_application(*old(builder), *final(builder), LAYER_TYPE_FRAGMENT, data@),
{
    let mut fragment = Fragment::new();
    let _ = fragment.decode_from_bytes(data, builder.as_decode_feedback());
    let index = builder.layers_count();
    builder.add_layer(PacketLayer::Fragment(fragment));
    builder.set_application_layer(index);
    assert(builder.layers@.subrange(0, index as int) =~= old(builder).layers@);
    Ok(())
}

} // verus!
