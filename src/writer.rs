//! Serialization: a byte window that grows to the left and to the right,
//! and the walk that writes a stack of layers into it, innermost first.
use crate::base::{Fragment, Layer, Payload, LAYER_TYPE_FRAGMENT, LAYER_TYPE_PAYLOAD};
use crate::layertype::{DecodeFunc, LayerType, LayerTypeID};
use crate::packet::PacketLayer;
use vstd::prelude::*;
use vstd::slice::slice_subrange;

verus! {

/// The largest number of bytes a buffer may hold: `isize::MAX`, the most a
/// `Vec<u8>` can allocate; growth past it is reported as an error.
pub const MAX_BUFFER_LEN: usize = usize::MAX / 2;

/// Relies on `Vec::capacity`: never less than the vector's length.
#[verifier::external_body]
pub(crate) fn vec_capacity(v: &Vec<u8>) -> (r: usize)
    ensures
        r >= v@.len(),
{
    v.capacity()
}

/// Why serialization failed.
#[derive(Debug)]
pub struct SerializeError {
    message: String,
}

impl SerializeError {
    pub fn new(message: &str) -> (r: Self)
        ensures
            r.spec_message() == message@,
    {
        SerializeError { message: message.to_owned() }
    }

    pub closed spec fn spec_message(&self) -> Seq<char> {
        self.message@
    }

    /// The message the error was made with.
    pub fn message(&self) -> (r: &str)
        ensures
            r@ == self.spec_message(),
    {
        self.message.as_str()
    }

    /// The message the error was made with.
    pub fn to_string(&self) -> (r: String)
        ensures
            r@ == self.spec_message(),
    {
        self.message.clone()
    }
}

/// Options for serializing layers.
#[derive(Debug, Clone, Copy, Default)]
pub struct SerializeOptions {
    /// Recompute the length fields of each layer from its payload.
    pub fix_lengths: bool,
    /// Recompute the checksums of each layer from its payload.
    pub compute_checksums: bool,
}

/// A byte window over a larger allocation, grown to the left by
/// `prepend_bytes` and to the right by `append_bytes`, with a trail of the
/// layer types written into it.
pub struct SerializeBuffer {
    data: Vec<u8>,
    start: usize,
    prepended: usize,
    appended: usize,
    layers: Vec<LayerType>,
}

impl View for SerializeBuffer {
    type V = Seq<u8>;

    /// The bytes in the window.
    closed spec fn view(&self) -> Seq<u8> {
        self.data@.subrange(self.start as int, self.data@.len() as int)
    }
}

/// `n` zero bytes.
pub open spec fn zeros(n: nat) -> Seq<u8> {
    Seq::new(n, |i: int| 0u8)
}

impl SerializeBuffer {
    pub closed spec fn wf(&self) -> bool {
        &&& self.start <= self.data@.len()
        &&& self.prepended <= self.data@.len()
        &&& self.data@.len() <= MAX_BUFFER_LEN
        &&& self.appended <= MAX_BUFFER_LEN
    }

    /// The whole allocation: the left margin, then the window.
    pub closed spec fn backing(&self) -> Seq<u8> {
        self.data@
    }

    /// Where the window starts in the allocation.
    pub closed spec fn window_start(&self) -> nat {
        self.start as nat
    }

    /// Bytes of left margin added so far; `clear` moves the window there.
    pub closed spec fn prepended_total(&self) -> nat {
        self.prepended as nat
    }

    /// Bytes of right margin requested so far.
    pub closed spec fn appended_total(&self) -> nat {
        self.appended as nat
    }

    /// Ids of the layer types written, in the order they were written.
    pub closed spec fn trail(&self) -> Seq<LayerTypeID> {
        self.layers@.map_values(|l: LayerType| l.id)
    }

    /// The left margin grown when `n` bytes do not fit in it.
    pub open spec fn margin_growth(&self, n: nat) -> nat {
        if self.prepended_total() < n {
            n
        } else {
            self.prepended_total()
        }
    }

    /// `prepend_bytes(n)` succeeds.
    pub open spec fn can_prepend(&self, n: nat) -> bool {
        self.window_start() >= n || self.backing().len() + self.margin_growth(n) <= MAX_BUFFER_LEN
    }

    /// An empty buffer with no margins.
    pub fn new() -> (r: Self)
        ensures
            r.wf(),
            r@ == Seq::<u8>::empty(),
            r.backing().len() == 0,
            r.window_start() == 0,
            r.prepended_total() == 0,
            r.appended_total() == 0,
            r.trail() == Seq::<LayerTypeID>::empty(),
    {
        let r = SerializeBuffer {
            data: Vec::new(),
            start: 0,
            prepended: 0,
            appended: 0,
            layers: Vec::new(),
        };
        assert(r.data@.subrange(0, 0) =~= Seq::<u8>::empty());
        assert(r.trail() =~= Seq::<LayerTypeID>::empty());
        r
    }

    /// An empty buffer with room for `expected_prepend_length` bytes on the
    /// left and `expected_append_length` on the right.
    pub fn new_default(expected_prepend_length: usize, expected_append_length: usize) -> (r: Self)
        requires
            expected_prepend_length + expected_append_length <= MAX_BUFFER_LEN,
        ensures
            r.wf(),
            r@ == Seq::<u8>::empty(),
            r.window_start() == expected_prepend_length,
            r.backing() == zeros(expected_prepend_length as nat),
            r.prepended_total() == 0,
            r.appended_total() == 0,
            r.trail() == Seq::<LayerTypeID>::empty(),
    {
        let mut data: Vec<u8> = Vec::with_capacity(expected_prepend_length + expected_append_length);
        let mut i: usize = 0;
        while i < expected_prepend_length
            invariant
                i <= expected_prepend_length,
                data@ == zeros(i as nat),
            decreases expected_prepend_length - i,
        {
            data.push(0);
            assert(data@ =~= zeros((i + 1) as nat));
            i = i + 1;
        }
        let r = SerializeBuffer {
            data,
            start: expected_prepend_length,
            prepended: 0,
            appended: 0,
            layers: Vec::new(),
        };
        assert(r@ =~= Seq::<u8>::empty());
        assert(r.trail() =~= Seq::<LayerTypeID>::empty());
        r
    }

    /// The bytes in the window.
    pub fn bytes(&self) -> (r: &[u8])
        requires
            self.wf(),
        ensures
            r@ == self@,
    {
        slice_subrange(self.data.as_slice(), self.start, self.data.len())
    }

    /// Where the window starts in the allocation.
    pub fn start(&self) -> (r: usize)
        ensures
            r == self.window_start(),
    {
        self.start
    }

    /// The size of the allocation the buffer holds.
    pub fn capacity(&self) -> (r: usize)
        ensures
            r >= self.backing().len(),
    {
        vec_capacity(&self.data)
    }

    /// Grows the window `num` bytes to the left; the new bytes are to be
    /// overwritten. The allocation is replaced only when the left margin is
    /// too small, and then the margin grows by at least all bytes prepended
    /// so far.
    pub fn prepend_bytes(&mut self, num: usize) -> (r: Result<(), SerializeError>)
        requires
            old(self).wf(),
        ensures
            final(self).wf(),
            r is Ok <==> old(self).can_prepend(num as nat),
            r is Err ==> *final(self) == *old(self),
            r is Ok && old(self).window_start() >= num ==> final(self).backing() == old(
                self,
            ).backing() && final(self).window_start() == old(self).window_start() - num
                && final(self).prepended_total() == old(self).prepended_total(),
            r is Ok && old(self).window_start() < num ==> final(self).backing() == zeros(
                old(self).margin_growth(num as nat),
            ) + old(self).backing() && final(self).window_start() == old(self).window_start()
                + old(self).margin_growth(num as nat) - num && final(self).prepended_total()
                == old(self).prepended_total() + old(self).margin_growth(num as nat),
            r is Ok ==> final(self)@.len() == old(self)@.len() + num && final(self)@.subrange(
                num as int,
                final(self)@.len() as int,
            ) == old(self)@,
            final(self).appended_total() == old(self).appended_total(),
            final(self).trail() == old(self).trail(),
    {
        if self.start < num {
            let to_prepend = if self.prepended < num {
                num
            } else {
                self.prepended
            };
            let len = self.data.len();
            if to_prepend > MAX_BUFFER_LEN - len {
                return Err(SerializeError::new("serialize buffer would grow past its limit"));
            }
            let mut new_data: Vec<u8> = Vec::with_capacity(len + to_prepend);
            let mut i: usize = 0;
            while i < to_prepend
                invariant
                    i <= to_prepend,
                    new_data@ == zeros(i as nat),
                decreases to_prepend - i,
            {
                new_data.push(0);
                assert(new_data@ =~= zeros((i + 1) as nat));
                i = i + 1;
            }
            let mut j: usize = 0;
            while j < len
                invariant
                    len == self.data@.len(),
                    j <= len,
                    new_data@ == zeros(to_prepend as nat) + self.data@.subrange(0, j as int),
                decreases len - j,
            {
                new_data.push(self.data[j]);
                assert(new_data@ =~= zeros(to_prepend as nat) + self.data@.subrange(
                    0,
                    (j + 1) as int,
                ));
                j = j + 1;
            }
            assert(self.data@.subrange(0, len as int) =~= self.data@);
            let ghost before = self@;
            self.data = new_data;
            self.start = self.start + to_prepend;
            self.prepended = self.prepended + to_prepend;
            assert(self@ =~= before);
        }
        let ghost before = self@;
        self.start = self.start - num;
        assert(self@.subrange(num as int, self@.len() as int) =~= before);
        Ok(())
    }

    /// Grows the window `num` zero bytes to the right, reserving at least
    /// all bytes appended so far when the allocation is too small.
    pub fn append_bytes(&mut self, num: usize) -> (r: Result<(), SerializeError>)
        requires
            old(self).wf(),
        ensures
            final(self).wf(),
            r is Err ==> *final(self) == *old(self),
            r is Ok ==> final(self)@ == old(self)@ + zeros(num as nat) && final(self).backing()
                == old(self).backing() + zeros(num as nat) && final(self).window_start() == old(
                self,
            ).window_start() && final(self).prepended_total() == old(self).prepended_total(),
            old(self).backing().len() + num + old(self).appended_total() <= MAX_BUFFER_LEN
                ==> r is Ok,
            final(self).trail() == old(self).trail(),
    {
        let initial_length = self.data.len();
        if num > MAX_BUFFER_LEN - initial_length {
            return Err(SerializeError::new("serialize buffer would grow past its limit"));
        }
        if vec_capacity(&self.data) - initial_length < num {
            let to_append = if self.appended < num {
                num
            } else {
                self.appended
            };
            if to_append > MAX_BUFFER_LEN - initial_length {
                return Err(SerializeError::new("serialize buffer would grow past its limit"));
            }
            self.appended = self.appended + to_append;
            if self.appended > MAX_BUFFER_LEN {
                self.appended = MAX_BUFFER_LEN;
            }
            self.data.reserve(to_append);
        }
        let ghost before_data = self.data@;
        let mut i: usize = 0;
        while i < num
            invariant
                i <= num,
                initial_length + num <= MAX_BUFFER_LEN,
                self.data@ == before_data + zeros(i as nat),
                before_data == old(self).data@,
                before_data.len() == initial_length,
                self.start == old(self).start,
                self.prepended == old(self).prepended,
                self.layers == old(self).layers,
                self.appended <= MAX_BUFFER_LEN,
                self.start <= initial_length,
                self.prepended <= initial_length,
            decreases num - i,
        {
            self.data.push(0);
            assert(self.data@ =~= before_data + zeros((i + 1) as nat));
            i = i + 1;
        }
        assert(self@ =~= old(self)@ + zeros(num as nat));
        Ok(())
    }

    /// Overwrites the window's bytes from `at` on with `src`.
    pub fn write_bytes(&mut self, at: usize, src: &[u8])
        requires
            old(self).wf(),
            at + src@.len() <= old(self)@.len(),
        ensures
            final(self).wf(),
            final(self)@ == old(self)@.subrange(0, at as int) + src@ + old(self)@.subrange(
                at + src@.len(),
                old(self)@.len() as int,
            ),
            final(self).window_start() == old(self).window_start(),
            final(self).backing().len() == old(self).backing().len(),
            final(self).prepended_total() == old(self).prepended_total(),
            final(self).appended_total() == old(self).appended_total(),
            final(self).trail() == old(self).trail(),
    {
        let base = self.start + at;
        let mut i: usize = 0;
        while i < src.len()
            invariant
                base == self.start + at,
                at + src@.len() <= self@.len(),
                i <= src@.len(),
                self.wf(),
                self.start == old(self).start,
                self.prepended == old(self).prepended,
                self.appended == old(self).appended,
                self.layers == old(self).layers,
                self.data@.len() == old(self).data@.len(),
                self@ == old(self)@.subrange(0, at as int) + src@.subrange(0, i as int) + old(
                    self,
                )@.subrange(at + i, old(self)@.len() as int),
            decreases src@.len() - i,
        {
            let ghost before = self@;
            self.data.set(base + i, src[i]);
            assert(self@ =~= before.update(at + i, src@[i as int]));
            assert(self@ =~= old(self)@.subrange(0, at as int) + src@.subrange(0, (i + 1) as int)
                + old(self)@.subrange(at + i + 1, old(self)@.len() as int));
            i = i + 1;
        }
        assert(src@.subrange(0, src@.len() as int) =~= src@);
    }

    /// Empties the window and the trail; the left margin and the allocation
    /// are kept for the next use.
    pub fn clear(&mut self)
        requires
            old(self).wf(),
        ensures
            final(self).wf(),
            final(self)@ == Seq::<u8>::empty(),
            final(self).window_start() == old(self).prepended_total(),
            final(self).backing() == old(self).backing().subrange(
                0,
                old(self).prepended_total() as int,
            ),
            final(self).prepended_total() == old(self).prepended_total(),
            final(self).appended_total() == old(self).appended_total(),
            final(self).trail() == Seq::<LayerTypeID>::empty(),
    {
        self.start = self.prepended;
        self.data.truncate(self.prepended);
        self.layers.clear();
        assert(self@ =~= Seq::<u8>::empty());
        assert(self.trail() =~= Seq::<LayerTypeID>::empty());
    }

    /// The layer types written, in the order they were written.
    pub fn layers(&self) -> (r: &[LayerType])
        ensures
            r@.map_values(|l: LayerType| l.id) == self.trail(),
    {
        self.layers.as_slice()
    }

    /// Records that a layer of type `layer_type` was written.
    pub fn push_layer(&mut self, layer_type: LayerType)
        requires
            old(self).wf(),
        ensures
            final(self).wf(),
            final(self)@ == old(self)@,
            final(self).trail() == old(self).trail().push(layer_type.id),
            final(self).backing() == old(self).backing(),
            final(self).window_start() == old(self).window_start(),
            final(self).prepended_total() == old(self).prepended_total(),
            final(self).appended_total() == old(self).appended_total(),
    {
        self.layers.push(layer_type);
        assert(self.trail() =~= old(self).trail().push(layer_type.id));
    }
}

/// Layers that can write themselves into a serialize buffer.
pub trait SerializableLayer {
    /// The window after this layer is written around `inner`; none when
    /// the layer cannot be written.
    spec fn spec_serialize(&self, inner: Seq<u8>) -> Option<Seq<u8>>;

    spec fn spec_layer_type_id(&self) -> LayerTypeID;

    /// Writes this layer around the window's bytes, which are its payload.
    fn serialize_to(&self, buffer: &mut SerializeBuffer, opts: SerializeOptions) -> (r: Result<
        (),
        SerializeError,
    >)
        requires
            old(buffer).wf(),
        ensures
            final(buffer).wf(),
            final(buffer).trail() == old(buffer).trail(),
            r is Ok ==> self.spec_serialize(old(buffer)@) == Some(final(buffer)@),
            self.spec_serialize(old(buffer)@) is None ==> r is Err,
    ;

    fn layer_type(&self) -> (r: LayerType)
        ensures
            r.id == self.spec_layer_type_id(),
    ;
}

/// `data` written before `inner`; none when there is no data.
pub open spec fn prefixed(data: Option<Seq<u8>>, inner: Seq<u8>) -> Option<Seq<u8>> {
    match data {
        Some(d) => Some(d + inner),
        None => None,
    }
}

fn prepend_data(data: &Option<Vec<u8>>, buffer: &mut SerializeBuffer) -> (r: Result<
    (),
    SerializeError,
>)
    requires
        old(buffer).wf(),
    ensures
        final(buffer).wf(),
        final(buffer).trail() == old(buffer).trail(),
        r is Ok ==> prefixed(crate::base::bytes_of(*data), old(buffer)@) == Some(final(buffer)@),
        data is None ==> (r matches Err(e) && e.spec_message() == "in_data is empty"@)
            && *final(buffer) == *old(buffer),
        data matches Some(d) ==> (r is Ok <==> old(buffer).can_prepend(d@.len())),
{
    match data {
        None => Err(SerializeError::new("in_data is empty")),
        Some(d) => {
            let size = d.len();
            match buffer.prepend_bytes(size) {
                Err(e) => Err(e),
                Ok(()) => {
                    let ghost mid = buffer@;
                    buffer.write_bytes(0, d.as_slice());
                    assert(buffer@ =~= d@ + old(buffer)@);
                    Ok(())
                },
            }
        },
    }
}

impl SerializableLayer for Payload {
    open spec fn spec_serialize(&self, inner: Seq<u8>) -> Option<Seq<u8>> {
        prefixed(self.data(), inner)
    }

    open spec fn spec_layer_type_id(&self) -> LayerTypeID {
        LAYER_TYPE_PAYLOAD
    }

    fn serialize_to(&self, buffer: &mut SerializeBuffer, opts: SerializeOptions) -> (r: Result<
        (),
        SerializeError,
    >)
        ensures
            self.data() is None ==> (r matches Err(e) && e.spec_message() == "in_data is empty"@)
                && *final(buffer) == *old(buffer),
            self.data() matches Some(d) ==> (r is Ok <==> old(buffer).can_prepend(d.len())),
    {
        prepend_data(self.in_data(), buffer)
    }

    fn layer_type(&self) -> (r: LayerType) {
        LayerType::new(LAYER_TYPE_PAYLOAD, "Payload", DecodeFunc::Payload)
    }
}

impl SerializableLayer for Fragment {
    open spec fn spec_serialize(&self, inner: Seq<u8>) -> Option<Seq<u8>> {
        prefixed(self.data(), inner)
    }

    open spec fn spec_layer_type_id(&self) -> LayerTypeID {
        LAYER_TYPE_FRAGMENT
    }

    fn serialize_to(&self, buffer: &mut SerializeBuffer, opts: SerializeOptions) -> (r: Result<
        (),
        SerializeError,
    >)
        ensures
            self.data() is None ==> (r matches Err(e) && e.spec_message() == "in_data is empty"@)
                && *final(buffer) == *old(buffer),
            self.data() matches Some(d) ==> (r is Ok <==> old(buffer).can_prepend(d.len())),
    {
        prepend_data(self.in_data(), buffer)
    }

    fn layer_type(&self) -> (r: LayerType) {
        LayerType::new(LAYER_TYPE_FRAGMENT, "DecodeFragment", DecodeFunc::Fragment)
    }
}

impl SerializableLayer for PacketLayer {
    /// Payloads and fragments write their data; other layers cannot be
    /// written.
    open spec fn spec_serialize(&self, inner: Seq<u8>) -> Option<Seq<u8>> {
        match self {
            PacketLayer::Payload(p) => p.spec_serialize(inner),
            PacketLayer::Fragment(f) => f.spec_serialize(inner),
            _ => None,
        }
    }

    open spec fn spec_layer_type_id(&self) -> LayerTypeID {
        self.spec_type_id()
    }

    fn serialize_to(&self, buffer: &mut SerializeBuffer, opts: SerializeOptions) -> (r: Result<
        (),
        SerializeError,
    >) {
        match self {
            PacketLayer::Payload(p) => p.serialize_to(buffer, opts),
            PacketLayer::Fragment(f) => f.serialize_to(buffer, opts),
            _ => Err(SerializeError::new("layer is not serializable")),
        }
    }

    fn layer_type(&self) -> (r: LayerType) {
        Layer::layer_type(self)
    }
}

/// The window after `layers[i..]` are written into an empty one, the last
/// layer first; none when one of them cannot be written.
pub open spec fn wrapped<L: SerializableLayer>(layers: Seq<L>, i: nat) -> Option<Seq<u8>>
    decreases layers.len() - i,
{
    if i >= layers.len() {
        Some(Seq::empty())
    } else {
        match wrapped(layers, i + 1) {
            Some(acc) => layers[i as int].spec_serialize(acc),
            None => None,
        }
    }
}

/// Ids of `layers[i..]`, last layer first.
pub open spec fn written_ids<L: SerializableLayer>(layers: Seq<L>, i: nat) -> Seq<LayerTypeID> {
    Seq::new(
        (layers.len() - i) as nat,
        |k: int| layers[layers.len() - 1 - k].spec_layer_type_id(),
    )
}

/// `layers[j + 1..]` were written and the layer at `j` was the one that
/// failed: the trail holds the types of the layers written, and those
/// layers can all be written.
pub open spec fn failed_at<L: SerializableLayer>(
    layers: Seq<L>,
    j: int,
    trail: Seq<LayerTypeID>,
) -> bool {
    &&& 0 <= j < layers.len()
    &&& wrapped(layers, (j + 1) as nat) is Some
    &&& trail == written_ids(layers, (j + 1) as nat)
}

/// Clears `buffer`, then writes `layers` into it from the last to the
/// first, so that each wraps the ones after it. Stops at the first layer
/// that cannot be written and returns its error, with the window and trail
/// as the layers after it left them; the buffer must then be cleared before
/// reuse.
pub fn serialize_layers<L: SerializableLayer>(
    buffer: &mut SerializeBuffer,
    options: SerializeOptions,
    layers: &[L],
) -> (r: Result<(), SerializeError>)
    requires
        old(buffer).wf(),
    ensures
        final(buffer).wf(),
        r is Ok ==> wrapped(layers@, 0) == Some(final(buffer)@) && final(buffer).trail()
            == written_ids(layers@, 0),
        r is Err ==> exists|j: int| failed_at(layers@, j, final(buffer).trail()),
        wrapped(layers@, 0) is None ==> r is Err,
        layers@.len() == 0 ==> r is Ok && final(buffer)@.len() == 0 && final(buffer).trail().len()
            == 0,
{
    buffer.clear();
    let mut i: usize = layers.len();
    assert(written_ids(layers@, i as nat) =~= Seq::<LayerTypeID>::empty());
    while i > 0
        invariant
            i <= layers@.len(),
            buffer.wf(),
            wrapped(layers@, i as nat) == Some(buffer@),
            buffer.trail() == written_ids(layers@, i as nat),
        decreases i,
    {
        i = i - 1;
        match layers[i].serialize_to(buffer, options) {
            Err(e) => {
                assert(failed_at(layers@, i as int, buffer.trail()));
                return Err(e);
            },
            Ok(()) => {},
        }
        buffer.push_layer(layers[i].layer_type());
        assert(buffer.trail() =~= written_ids(layers@, i as nat));
    }
    Ok(())
}

/// A prepend that does not fit in the left margin grows the margin by at
/// least the bytes asked for and at least all bytes prepended before, so the
/// margin prepended in total at least doubles with each new allocation.
pub proof fn lemma_margin_at_least_doubles(b: SerializeBuffer, n: nat)
    ensures
        b.margin_growth(n) >= n,
        b.prepended_total() + b.margin_growth(n) >= 2 * b.prepended_total(),
{
}

} // verus!
