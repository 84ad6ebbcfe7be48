//! Device path views and iteration.
//!
//! A device path is a packed list of variable-length nodes. Every node
//! starts with a four-byte header: a type tag, a subtype tag and a
//! little-endian `u16` length that counts the header itself. The list
//! carries no total length; its extent is discovered by walking node by
//! node until the end-of-entire-path terminator.
//!
//! [`DevicePath`] owns the bytes of a whole path, [`DevicePathInstance`]
//! the bytes of one instance (a run of nodes up to and including a
//! terminator), and [`DevicePathNode`] one node (header plus payload).
//! All three are only constructed in well-formed states, so iteration
//! never reads out of bounds.

use vstd::prelude::*;

verus! {

/// Size in bytes of a node header: type tag, subtype tag, two length bytes.
pub const HEADER_SIZE: usize = 4;

/// Type tag of a device path node.
#[derive(Clone, Copy, Debug, PartialEq, Eq, Structural)]
pub struct DeviceType(pub u8);

impl DeviceType {
    /// Raw tag value of terminator nodes (of either subtype).
    pub const END: u8 = 0x7f;
}

/// Subtype tag of a device path node.
#[derive(Clone, Copy, Debug, PartialEq, Eq, Structural)]
pub struct DeviceSubType(pub u8);

impl DeviceSubType {
    /// Raw subtype value that, under [`DeviceType::END`], ends one instance;
    /// more instances follow.
    pub const END_INSTANCE: u8 = 0x01;

    /// Raw subtype value that, under [`DeviceType::END`], ends the entire path.
    pub const END_ENTIRE: u8 = 0xff;
}

/// Header that appears at the start of every [`DevicePathNode`].
#[derive(Clone, Copy, Debug, PartialEq, Eq, Structural)]
pub struct DevicePathHeader {
    /// Type of device.
    pub device_type: DeviceType,
    /// Sub type of device.
    pub sub_type: DeviceSubType,
    /// Size (in bytes) of the node, including this header.
    pub length: u16,
}

/// Error returned when attempting to convert a byte slice to a device
/// path type.
#[derive(Clone, Copy, Debug, PartialEq, Eq, Structural)]
pub enum ByteConversionError {
    /// The length of the given slice is not valid for its device path type.
    InvalidLength,
}

/// Error returned when converting from a [`DevicePathNode`] to a more
/// specific node type.
#[derive(Clone, Copy, Debug, PartialEq, Eq, Structural)]
pub enum NodeConversionError {
    /// The requested node type does not match the actual node type.
    DifferentType,
    /// The length of the node data is not valid for its type.
    InvalidLength,
    /// The node type is not currently supported.
    UnsupportedType,
}

/// An enum of more specific node types, one variant per supported
/// (type, subtype) pair. Produced by [`DevicePathNode::as_enum`].
#[derive(Debug)]
pub enum DevicePathNodeEnum {
    /// Node that ends one instance of a path.
    EndInstance(crate::end::Instance),
    /// Node that ends an entire path.
    EndEntire(crate::end::Entire),
}

/// The declared length of the node at the front of `b`: the third and
/// fourth bytes as a little-endian `u16`.
pub open spec fn spec_node_len(b: Seq<u8>) -> int
    recommends
        b.len() >= 4,
{
    b[2] + 0x100 * b[3]
}

/// A whole node fits at the front of `b`: the header fits, the declared
/// length covers at least the header, and it does not run past `b`.
pub open spec fn spec_has_node(b: Seq<u8>) -> bool {
    &&& b.len() >= 4
    &&& 4 <= spec_node_len(b)
    &&& spec_node_len(b) <= b.len()
}

/// Mathematical model of one node: its two tags and its payload bytes.
pub struct SpecNode {
    /// Type tag.
    pub device_type: u8,
    /// Subtype tag.
    pub sub_type: u8,
    /// Payload bytes, after the four header bytes.
    pub data: Seq<u8>,
}

impl SpecNode {
    /// Size in bytes of the encoded node, header included.
    pub open spec fn len(self) -> int {
        4 + self.data.len() as int
    }

    /// The node is a terminator (of either subtype).
    pub open spec fn is_end(self) -> bool {
        self.device_type == DeviceType::END
    }

    /// The node ends the entire path.
    pub open spec fn is_end_entire(self) -> bool {
        self.device_type == DeviceType::END && self.sub_type == DeviceSubType::END_ENTIRE
    }

    /// The node ends one instance, with more instances following.
    pub open spec fn is_end_instance(self) -> bool {
        self.device_type == DeviceType::END && self.sub_type == DeviceSubType::END_INSTANCE
    }
}

/// The node at the front of `b`.
pub open spec fn spec_front_node(b: Seq<u8>) -> SpecNode
    recommends
        spec_has_node(b),
{
    SpecNode { device_type: b[0], sub_type: b[1], data: b.subrange(4, spec_node_len(b)) }
}

/// The node at the front of `b` ends the entire path.
pub open spec fn spec_front_is_end_entire(b: Seq<u8>) -> bool
    recommends
        b.len() >= 2,
{
    b[0] == DeviceType::END && b[1] == DeviceSubType::END_ENTIRE
}

/// The node at the front of `b` is a terminator of either subtype.
pub open spec fn spec_front_is_end(b: Seq<u8>) -> bool
    recommends
        b.len() >= 1,
{
    b[0] == DeviceType::END
}

/// `b` is exactly a well-formed device path: a run of nodes whose last
/// node is the end-of-entire-path terminator, ending exactly at `b`'s end.
pub open spec fn is_device_path(b: Seq<u8>) -> bool
    decreases b.len(),
{
    &&& spec_has_node(b)
    &&& if spec_front_is_end_entire(b) {
        spec_node_len(b) == b.len()
    } else {
        is_device_path(b.skip(spec_node_len(b)))
    }
}

/// `b` is exactly a well-formed device path instance: a run of nodes whose
/// last node is a terminator of either subtype, ending exactly at `b`'s end.
pub open spec fn is_instance(b: Seq<u8>) -> bool
    decreases b.len(),
{
    &&& spec_has_node(b)
    &&& if spec_front_is_end(b) {
        spec_node_len(b) == b.len()
    } else {
        is_instance(b.skip(spec_node_len(b)))
    }
}

/// The size in bytes of the well-formed device path at the front of `b`,
/// terminator included, or `None` if no such path fits in `b`.
pub open spec fn spec_path_size(b: Seq<u8>) -> Option<int>
    decreases b.len(),
{
    if !spec_has_node(b) {
        None
    } else if spec_front_is_end_entire(b) {
        Some(spec_node_len(b))
    } else {
        match spec_path_size(b.skip(spec_node_len(b))) {
            Some(rest) => Some(spec_node_len(b) + rest),
            None => None,
        }
    }
}

/// Every node encoded in `b`, read greedily from the front, terminators
/// included.
pub open spec fn spec_nodes(b: Seq<u8>) -> Seq<SpecNode>
    decreases b.len(),
{
    if spec_has_node(b) {
        seq![spec_front_node(b)] + spec_nodes(b.skip(spec_node_len(b)))
    } else {
        Seq::empty()
    }
}

/// The nodes yielded when iterating a whole path: every node up to, and
/// excluding, the end-of-entire-path terminator. Interior end-of-instance
/// terminators are yielded.
pub open spec fn spec_path_nodes(b: Seq<u8>) -> Seq<SpecNode>
    decreases b.len(),
{
    if spec_has_node(b) && !spec_front_is_end_entire(b) {
        seq![spec_front_node(b)] + spec_path_nodes(b.skip(spec_node_len(b)))
    } else {
        Seq::empty()
    }
}

/// The nodes yielded when iterating one instance: every node up to, and
/// excluding, the first terminator of either subtype.
pub open spec fn spec_instance_nodes(b: Seq<u8>) -> Seq<SpecNode>
    decreases b.len(),
{
    if spec_has_node(b) && !spec_front_is_end(b) {
        seq![spec_front_node(b)] + spec_instance_nodes(b.skip(spec_node_len(b)))
    } else {
        Seq::empty()
    }
}

/// The sum of the encoded lengths of the given nodes.
pub open spec fn spec_total_length(ns: Seq<SpecNode>) -> int
    decreases ns.len(),
{
    if ns.len() == 0 {
        0
    } else {
        ns[0].len() + spec_total_length(ns.skip(1))
    }
}

/// Size in bytes of the first instance of `b`: every node up to and
/// including the first terminator of either subtype.
pub open spec fn spec_instance_size(b: Seq<u8>) -> int
    decreases b.len(),
{
    if spec_has_node(b) {
        if spec_front_is_end(b) {
            spec_node_len(b)
        } else {
            spec_node_len(b) + spec_instance_size(b.skip(spec_node_len(b)))
        }
    } else {
        0
    }
}

/// The instances of `b`: maximal runs of nodes, each up to and including a
/// terminator of either subtype. `acc` carries the bytes of the current,
/// partially read instance.
pub open spec fn spec_instances_from(b: Seq<u8>, acc: Seq<u8>) -> Seq<Seq<u8>>
    decreases b.len(),
{
    if spec_has_node(b) {
        let l = spec_node_len(b);
        if spec_front_is_end(b) {
            seq![acc + b.take(l)] + spec_instances_from(b.skip(l), Seq::empty())
        } else {
            spec_instances_from(b.skip(l), acc + b.take(l))
        }
    } else {
        Seq::empty()
    }
}

/// The instances of a device path, in order, each including its terminator.
pub open spec fn spec_instances(b: Seq<u8>) -> Seq<Seq<u8>> {
    spec_instances_from(b, Seq::empty())
}

/// Every terminator node in `b` carries one of the two reserved
/// subtypes. Well-formed producers only emit those; a terminator with an
/// unknown subtype still splits instances, but counts as neither kind.
pub open spec fn spec_terminators_tagged(b: Seq<u8>) -> bool
    decreases b.len(),
{
    if spec_has_node(b) {
        &&& (spec_front_is_end(b) ==> b[1] == DeviceSubType::END_INSTANCE || b[1]
            == DeviceSubType::END_ENTIRE)
        &&& spec_terminators_tagged(b.skip(spec_node_len(b)))
    } else {
        true
    }
}

/// How many interior end-of-instance terminators `b` encodes.
pub open spec fn spec_count_end_instance(b: Seq<u8>) -> int
    decreases b.len(),
{
    if spec_has_node(b) {
        (if spec_front_node(b).is_end_instance() {
            1int
        } else {
            0int
        }) + spec_count_end_instance(b.skip(spec_node_len(b)))
    } else {
        0
    }
}

impl DevicePathHeader {
    /// Read a header from the first bytes of `bytes`.
    ///
    /// Any byte pattern is accepted at this layer; only a slice shorter
    /// than the header itself is rejected.
    pub fn try_from_bytes(bytes: &[u8]) -> (r: Result<DevicePathHeader, ByteConversionError>)
        ensures
            match r {
                Ok(h) => {
                    &&& bytes@.len() >= 4
                    &&& h.device_type.0 == bytes@[0]
                    &&& h.sub_type.0 == bytes@[1]
                    &&& h.length == spec_node_len(bytes@)
                },
                Err(e) => e == ByteConversionError::InvalidLength && bytes@.len() < 4,
            },
    {
        if bytes.len() < HEADER_SIZE {
            return Err(ByteConversionError::InvalidLength);
        }
        let length: u16 = bytes[2] as u16 + 0x100 * (bytes[3] as u16);
        Ok(DevicePathHeader { device_type: DeviceType(bytes[0]), sub_type: DeviceSubType(bytes[1]), length })
    }
}

/// A single node within a device path: a header followed by
/// `header.length - 4` payload bytes. Owns a copy of its bytes;
/// constructed only in well-formed states.
#[derive(Debug)]
pub struct DevicePathNode {
    header: DevicePathHeader,
    data: Vec<u8>,
}

impl View for DevicePathNode {
    type V = SpecNode;

    closed spec fn view(&self) -> SpecNode {
        SpecNode {
            device_type: self.header.device_type.0,
            sub_type: self.header.sub_type.0,
            data: self.data@,
        }
    }
}

impl DevicePathNode {
    /// The stored header length agrees with the payload size.
    pub closed spec fn wf(&self) -> bool {
        self.header.length == 4 + self.data.len()
    }

    /// What `==` means on nodes: equal headers and equal payload bytes.
    pub closed spec fn spec_eq(&self, other: &DevicePathNode) -> bool {
        self.header == other.header && self.data@ == other.data@
    }

    /// On well-formed nodes, `==` agrees with equality of the models.
    pub proof fn lemma_eq_matches_view(&self, other: &DevicePathNode)
        requires
            self.wf(),
            other.wf(),
        ensures
            self.spec_eq(other) <==> self@ == other@,
    {
        if self@ == other@ {
            assert(self.data@ == other.data@);
            assert(self.header.length == other.header.length);
            assert(self.header == other.header);
        }
    }

    /// Decode one node from the front of `bytes`.
    ///
    /// Fails with [`ByteConversionError::InvalidLength`] if the slice is
    /// shorter than a header, if the declared length does not cover the
    /// header, or if the declared length runs past the slice.
    pub fn try_from_bytes(bytes: &[u8]) -> (r: Result<DevicePathNode, ByteConversionError>)
        ensures
            match r {
                Ok(n) => n.wf() && spec_has_node(bytes@) && n@ == spec_front_node(bytes@),
                Err(e) => e == ByteConversionError::InvalidLength && !spec_has_node(bytes@),
            },
    {
        let header = match DevicePathHeader::try_from_bytes(bytes) {
            Ok(h) => h,
            Err(e) => {
                return Err(e);
            },
        };
        let length = header.length as usize;
        if length < HEADER_SIZE || length > bytes.len() {
            return Err(ByteConversionError::InvalidLength);
        }
        let mut data: Vec<u8> = Vec::new();
        let mut i: usize = HEADER_SIZE;
        while i < length
            invariant
                HEADER_SIZE <= i <= length,
                length <= bytes@.len(),
                length == spec_node_len(bytes@),
                data@ == bytes@.subrange(4, i as int),
            decreases length - i,
        {
            data.push(bytes[i]);
            proof {
                assert(data@ =~= bytes@.subrange(4, i + 1 as int));
            }
            i = i + 1;
        }
        let node = DevicePathNode { header, data };
        proof {
            assert(node@ == spec_front_node(bytes@));
        }
        Ok(node)
    }

    /// Type of device.
    pub fn device_type(&self) -> (r: DeviceType)
        ensures
            r.0 == self@.device_type,
    {
        self.header.device_type
    }

    /// Sub type of device.
    pub fn sub_type(&self) -> (r: DeviceSubType)
        ensures
            r.0 == self@.sub_type,
    {
        self.header.sub_type
    }

    /// Tuple of the node's type and subtype.
    pub fn full_type(&self) -> (r: (DeviceType, DeviceSubType))
        ensures
            r.0.0 == self@.device_type,
            r.1.0 == self@.sub_type,
    {
        (self.header.device_type, self.header.sub_type)
    }

    /// Size (in bytes) of the full node, including the header.
    pub fn length(&self) -> (r: u16)
        requires
            self.wf(),
        ensures
            r == self@.len(),
    {
        self.header.length
    }

    /// True if this node ends an entire device path.
    pub fn is_end_entire(&self) -> (r: bool)
        ensures
            r == self@.is_end_entire(),
    {
        self.header.device_type.0 == DeviceType::END
            && self.header.sub_type.0 == DeviceSubType::END_ENTIRE
    }

    /// The payload data of this node.
    pub fn data(&self) -> (r: &[u8])
        ensures
            r@ == self@.data,
    {
        self.data.as_slice()
    }

    /// Convert from a generic node reference to an enum of more specific
    /// node types, by looking the node's (type, subtype) pair up in the
    /// table of supported kinds.
    ///
    /// # Errors
    ///
    /// Fails with [`NodeConversionError::UnsupportedType`] when no kind is
    /// registered for the pair, and with
    /// [`NodeConversionError::InvalidLength`] when the pair is known but
    /// the payload does not have that kind's shape.
    pub fn as_enum(&self) -> (r: Result<DevicePathNodeEnum, NodeConversionError>)
        requires
            self.wf(),
        ensures
            match r {
                Ok(e) => match e {
                    DevicePathNodeEnum::EndInstance(_) => self@.is_end_instance()
                        && self@.data.len() == 0,
                    DevicePathNodeEnum::EndEntire(_) => self@.is_end_entire() && self@.data.len()
                        == 0,
                },
                Err(NodeConversionError::UnsupportedType) => !self@.is_end_instance()
                    && !self@.is_end_entire(),
                Err(NodeConversionError::InvalidLength) => (self@.is_end_instance()
                    || self@.is_end_entire()) && self@.data.len() != 0,
                Err(NodeConversionError::DifferentType) => false,
            },
    {
        if self.header.device_type.0 == DeviceType::END && self.header.sub_type.0
            == DeviceSubType::END_INSTANCE {
            match crate::end::Instance::try_from_node(self) {
                Ok(n) => Ok(DevicePathNodeEnum::EndInstance(n)),
                Err(e) => Err(e),
            }
        } else if self.header.device_type.0 == DeviceType::END && self.header.sub_type.0
            == DeviceSubType::END_ENTIRE {
            match crate::end::Entire::try_from_node(self) {
                Ok(n) => Ok(DevicePathNodeEnum::EndEntire(n)),
                Err(e) => Err(e),
            }
        } else {
            Err(NodeConversionError::UnsupportedType)
        }
    }
}

impl PartialEq for DevicePathNode {
    /// Structural equality: header and payload bytes.
    fn eq(&self, other: &Self) -> (r: bool) {
        if !(self.header.device_type.0 == other.header.device_type.0
            && self.header.sub_type.0 == other.header.sub_type.0
            && self.header.length == other.header.length
            && self.data.len() == other.data.len()) {
            return false;
        }
        let n = self.data.len();
        let mut i: usize = 0;
        while i < n
            invariant
                i <= n,
                n == self.data@.len(),
                n == other.data@.len(),
                forall|j: int| 0 <= j < i ==> self.data@[j] == other.data@[j],
            decreases n - i,
        {
            if self.data[i] != other.data[i] {
                return false;
            }
            i = i + 1;
        }
        proof {
            assert(self.data@ =~= other.data@);
        }
        true
    }
}

impl Eq for DevicePathNode {}

impl vstd::std_specs::cmp::PartialEqSpecImpl for DevicePathNode {
    open spec fn obeys_eq_spec() -> bool {
        true
    }

    open spec fn eq_spec(&self, other: &DevicePathNode) -> bool {
        self.spec_eq(other)
    }
}

/// A byte-slice suffix is indexed like the original shifted by the cut.
proof fn lemma_skip_index(b: Seq<u8>, p: int)
    requires
        0 <= p <= b.len(),
    ensures
        b.skip(p).len() == b.len() - p,
        forall|i: int| 0 <= i < b.len() - p ==> b.skip(p)[i] == b[p + i],
{
}

/// A well-formed path prefix of the declared size sits at the front of `b`.
proof fn lemma_path_size_prefix(b: Seq<u8>)
    requires
        spec_path_size(b) is Some,
    ensures
        4 <= spec_path_size(b)->Some_0 <= b.len(),
        is_device_path(b.take(spec_path_size(b)->Some_0)),
    decreases b.len(),
{
    let n = spec_path_size(b)->Some_0;
    let l = spec_node_len(b);
    assert(spec_has_node(b));
    if spec_front_is_end_entire(b) {
        let head = b.take(n);
        assert(forall|i: int| 0 <= i < n ==> head[i] == b[i]);
        assert(spec_node_len(head) == l);
        assert(is_device_path(head));
    } else {
        let tail = b.skip(l);
        lemma_path_size_prefix(tail);
        let m = spec_path_size(tail)->Some_0;
        assert(n == l + m);
        assert(n <= b.len());
        let head = b.take(n);
        assert(forall|i: int| 0 <= i < n ==> head[i] == b[i]);
        assert(spec_node_len(head) == l);
        lemma_skip_index(b, l);
        assert(head.skip(l) =~= tail.take(m));
        assert(is_device_path(head));
    }
}

/// On an exactly well-formed path the size computation succeeds and
/// returns the whole length.
proof fn lemma_device_path_size(b: Seq<u8>)
    requires
        is_device_path(b),
    ensures
        spec_path_size(b) == Some(b.len() as int),
    decreases b.len(),
{
    if !spec_front_is_end_entire(b) {
        lemma_device_path_size(b.skip(spec_node_len(b)));
    }
}

/// A device path. Owns the bytes of the full region, from the first
/// node's header through the final end-of-entire-path terminator.
#[derive(Debug)]
pub struct DevicePath {
    data: Vec<u8>,
}

impl View for DevicePath {
    type V = Seq<u8>;

    closed spec fn view(&self) -> Seq<u8> {
        self.data@
    }
}

impl DevicePath {
    /// The owned bytes are exactly a well-formed device path.
    pub open spec fn wf(&self) -> bool {
        is_device_path(self@)
    }

    /// Calculate the size in bytes of the entire device path at the front
    /// of `bytes`. This adds up each node's length, including the
    /// end-entire node.
    ///
    /// # Errors
    ///
    /// Fails with [`ByteConversionError::InvalidLength`] when no node's
    /// declared extent may be trusted: a truncated header, a declared
    /// length smaller than a header, or a node or missing terminator that
    /// would run past the slice.
    pub fn size_in_bytes_from_slice(bytes: &[u8]) -> (r: Result<usize, ByteConversionError>)
        ensures
            match r {
                Ok(n) => spec_path_size(bytes@) == Some(n as int),
                Err(e) => e == ByteConversionError::InvalidLength && spec_path_size(bytes@) is None,
            },
    {
        let len = bytes.len();
        let mut pos: usize = 0;
        proof {
            assert(bytes@.skip(0) =~= bytes@);
        }
        loop
            invariant
                pos <= len,
                len == bytes@.len(),
                match spec_path_size(bytes@.skip(pos as int)) {
                    Some(m) => spec_path_size(bytes@) == Some(pos + m),
                    None => spec_path_size(bytes@) is None,
                },
            decreases len - pos,
        {
            let ghost suffix = bytes@.skip(pos as int);
            proof {
                lemma_skip_index(bytes@, pos as int);
            }
            if len - pos < HEADER_SIZE {
                return Err(ByteConversionError::InvalidLength);
            }
            let node_len = bytes[pos + 2] as usize + 0x100 * (bytes[pos + 3] as usize);
            proof {
                assert(spec_node_len(suffix) == node_len);
            }
            if node_len < HEADER_SIZE || node_len > len - pos {
                return Err(ByteConversionError::InvalidLength);
            }
            if bytes[pos] == DeviceType::END && bytes[pos + 1] == DeviceSubType::END_ENTIRE {
                return Ok(pos + node_len);
            }
            proof {
                assert(bytes@.skip((pos + node_len) as int) =~= suffix.skip(node_len as int));
            }
            pos = pos + node_len;
        }
    }

    /// Build a device path from the front of `bytes`, copying exactly the
    /// bytes that the node lengths declare, terminator included.
    ///
    /// # Errors
    ///
    /// Fails with [`ByteConversionError::InvalidLength`] when `bytes` does
    /// not start with a well-formed device path, as
    /// [`Self::size_in_bytes_from_slice`] determines.
    pub fn try_from_bytes(bytes: &[u8]) -> (r: Result<DevicePath, ByteConversionError>)
        ensures
            match r {
                Ok(p) => {
                    &&& p.wf()
                    &&& spec_path_size(bytes@) == Some(p@.len() as int)
                    &&& p@ == bytes@.take(p@.len() as int)
                },
                Err(e) => e == ByteConversionError::InvalidLength && spec_path_size(bytes@) is None,
            },
    {
        let n = match Self::size_in_bytes_from_slice(bytes) {
            Ok(n) => n,
            Err(e) => {
                return Err(e);
            },
        };
        proof {
            lemma_path_size_prefix(bytes@);
        }
        let mut data: Vec<u8> = Vec::new();
        let mut i: usize = 0;
        while i < n
            invariant
                i <= n,
                n <= bytes@.len(),
                data@ == bytes@.take(i as int),
            decreases n - i,
        {
            data.push(bytes[i]);
            proof {
                assert(data@ =~= bytes@.take(i + 1 as int));
            }
            i = i + 1;
        }
        Ok(DevicePath { data })
    }

    /// Get an iterator over the instances in this path, in order, each
    /// including its terminator.
    pub fn instance_iter(&self) -> (it: DevicePathInstanceIterator)
        requires
            self.wf(),
        ensures
            it.wf(),
            it.remaining() == self@,
            it.remaining_instances() == spec_instances(self@),
    {
        let it = DevicePathInstanceIterator { nodes: copy_bytes(&self.data), pos: 0 };
        proof {
            assert(it.remaining() =~= self@);
        }
        it
    }

    /// Get an iterator over the nodes of the whole path. Iteration ends at
    /// the end-of-entire-path terminator, which is not yielded; interior
    /// end-of-instance terminators are yielded like any other node.
    pub fn node_iter(&self) -> (it: DevicePathNodeIterator)
        requires
            self.wf(),
        ensures
            it.wf(),
            it.remaining() == self@,
            it.remaining_nodes() == spec_path_nodes(self@),
    {
        let it = DevicePathNodeIterator {
            nodes: copy_bytes(&self.data),
            pos: 0,
            stop_condition: StopCondition::EndEntireNode,
        };
        proof {
            assert(it.remaining() =~= self@);
        }
        it
    }

    /// Returns a slice of the underlying bytes.
    pub fn as_bytes(&self) -> (r: &[u8])
        ensures
            r@ == self@,
    {
        self.data.as_slice()
    }

    /// Returns a boxed copy of the path. The copy owns its own bytes:
    /// changing either side never affects the other.
    pub fn to_boxed(&self) -> (r: Box<DevicePath>)
        requires
            self.wf(),
        ensures
            r.wf(),
            r@ == self@,
    {
        let mut data: Vec<u8> = Vec::new();
        let n = self.data.len();
        let mut i: usize = 0;
        while i < n
            invariant
                i <= n,
                n == self.data@.len(),
                data@ == self.data@.take(i as int),
            decreases n - i,
        {
            data.push(self.data[i]);
            proof {
                assert(data@ =~= self.data@.take(i + 1 as int));
            }
            i = i + 1;
        }
        proof {
            assert(data@ =~= self.data@);
        }
        Box::new(DevicePath { data })
    }
}

impl PartialEq for DevicePath {
    /// Structural equality of the underlying bytes.
    fn eq(&self, other: &Self) -> (r: bool) {
        bytes_eq(&self.data, &other.data)
    }
}

impl Eq for DevicePath {}

impl vstd::std_specs::cmp::PartialEqSpecImpl for DevicePath {
    open spec fn obeys_eq_spec() -> bool {
        true
    }

    open spec fn eq_spec(&self, other: &DevicePath) -> bool {
        self@ == other@
    }
}

/// When a node iterator stops early, without yielding the node it
/// stopped at.
#[derive(Debug, Clone, Copy, PartialEq, Eq, Structural)]
pub enum StopCondition {
    /// Stop at any terminator: used when iterating nodes of one instance.
    AnyEndNode,
    /// Stop only at the end-of-entire-path terminator: used when iterating
    /// nodes of a whole path, where interior terminators are transparent.
    EndEntireNode,
    /// Never stop early: used while measuring an instance's byte extent,
    /// where the terminator itself must be seen by the caller.
    NoMoreNodes,
}

/// Iterator over the nodes of a device path or of one of its instances.
///
/// Returned by [`DevicePath::node_iter`] and
/// [`DevicePathInstance::node_iter`]. Not restartable: create a fresh
/// iterator to iterate again.
#[derive(Debug)]
pub struct DevicePathNodeIterator {
    nodes: Vec<u8>,
    pos: usize,
    stop_condition: StopCondition,
}

impl DevicePathNodeIterator {
    /// The bytes not yet consumed.
    pub closed spec fn remaining(&self) -> Seq<u8> {
        self.nodes@.skip(self.pos as int)
    }

    /// The consumed position never passes the end, and what remains is a
    /// well-formed region for this iterator's stop policy.
    pub closed spec fn wf(&self) -> bool {
        &&& self.pos <= self.nodes@.len()
        &&& self.remaining().len() == 0 || match self.stop_condition {
            StopCondition::AnyEndNode => is_instance(self.remaining()),
            StopCondition::EndEntireNode => is_device_path(self.remaining()),
            StopCondition::NoMoreNodes => is_device_path(self.remaining()),
        }
    }

    /// The stop policy this iterator was created with.
    pub closed spec fn spec_policy(&self) -> StopCondition {
        self.stop_condition
    }

    /// The nodes this iterator will still yield, in order.
    pub closed spec fn remaining_nodes(&self) -> Seq<SpecNode> {
        match self.stop_condition {
            StopCondition::AnyEndNode => spec_instance_nodes(self.remaining()),
            StopCondition::EndEntireNode => spec_path_nodes(self.remaining()),
            StopCondition::NoMoreNodes => spec_nodes(self.remaining()),
        }
    }

    /// Yield the next node, or `None` once the stop policy triggers or the
    /// bytes run out. A triggered stop clears the rest, so every later
    /// call returns `None` at once.
    pub fn next(&mut self) -> (r: Option<DevicePathNode>)
        requires
            old(self).wf(),
        ensures
            final(self).wf(),
            final(self).spec_policy() == old(self).spec_policy(),
            match r {
                Some(node) => {
                    &&& node.wf()
                    &&& old(self).remaining_nodes().len() > 0
                    &&& node@ == old(self).remaining_nodes()[0]
                    &&& final(self).remaining_nodes() == old(self).remaining_nodes().skip(1)
                    &&& spec_has_node(old(self).remaining())
                    &&& node@ == spec_front_node(old(self).remaining())
                    &&& final(self).remaining() == old(self).remaining().skip(
                        spec_node_len(old(self).remaining()),
                    )
                },
                None => {
                    &&& old(self).remaining_nodes().len() == 0
                    &&& final(self).remaining_nodes().len() == 0
                    &&& final(self).remaining().len() == 0
                },
            },
    {
        let len = self.nodes.len();
        if self.pos == len {
            return None;
        }
        let ghost rem = self.remaining();
        proof {
            lemma_skip_index(self.nodes@, self.pos as int);
            assert(spec_has_node(rem));
        }
        let pos = self.pos;
        let ty = self.nodes[pos];
        let sub = self.nodes[pos + 1];
        let node_len = self.nodes[pos + 2] as usize + 0x100 * (self.nodes[pos + 3] as usize);
        proof {
            assert(spec_node_len(rem) == node_len);
        }
        let stop = match self.stop_condition {
            StopCondition::AnyEndNode => ty == DeviceType::END,
            StopCondition::EndEntireNode => ty == DeviceType::END && sub
                == DeviceSubType::END_ENTIRE,
            StopCondition::NoMoreNodes => false,
        };
        if stop {
            // Clear the remaining node data so that future calls
            // immediately return `None`.
            self.pos = len;
            proof {
                assert(self.remaining() =~= Seq::<u8>::empty());
            }
            None
        } else {
            let header = DevicePathHeader {
                device_type: DeviceType(ty),
                sub_type: DeviceSubType(sub),
                length: self.nodes[pos + 2] as u16 + 0x100 * (self.nodes[pos + 3] as u16),
            };
            let mut data: Vec<u8> = Vec::new();
            let data_end = pos + node_len;
            let mut i: usize = pos + HEADER_SIZE;
            while i < data_end
                invariant
                    pos + 4 <= i <= data_end,
                    data_end <= self.nodes@.len(),
                    data@ == self.nodes@.subrange(pos + 4, i as int),
                decreases data_end - i,
            {
                data.push(self.nodes[i]);
                proof {
                    assert(data@ =~= self.nodes@.subrange(pos + 4, i + 1 as int));
                }
                i = i + 1;
            }
            let node = DevicePathNode { header, data };
            self.pos = pos + node_len;
            proof {
                assert(node@.data =~= rem.subrange(4, node_len as int));
                assert(node@ == spec_front_node(rem));
                assert(self.remaining() =~= rem.skip(node_len as int));
                assert((seq![spec_front_node(rem)] + spec_nodes(rem.skip(node_len as int))).skip(1)
                    =~= spec_nodes(rem.skip(node_len as int)));
                assert((seq![spec_front_node(rem)] + spec_path_nodes(
                    rem.skip(node_len as int),
                )).skip(1) =~= spec_path_nodes(rem.skip(node_len as int)));
                assert((seq![spec_front_node(rem)] + spec_instance_nodes(
                    rem.skip(node_len as int),
                )).skip(1) =~= spec_instance_nodes(rem.skip(node_len as int)));
            }
            Some(node)
        }
    }
}

/// A single device path instance: a maximal run of nodes up to and
/// including a terminator of either subtype. Owns a copy of its bytes.
///
/// Use [`DevicePath::instance_iter`] to get the instances of a path.
#[derive(Debug)]
pub struct DevicePathInstance {
    data: Vec<u8>,
}

impl View for DevicePathInstance {
    type V = Seq<u8>;

    closed spec fn view(&self) -> Seq<u8> {
        self.data@
    }
}

impl DevicePathInstance {
    /// The owned bytes are exactly a well-formed instance.
    pub open spec fn wf(&self) -> bool {
        is_instance(self@)
    }

    /// Get an iterator over the nodes in this instance. Iteration ends
    /// when any terminator node is reached; that node is not yielded.
    pub fn node_iter(&self) -> (it: DevicePathNodeIterator)
        requires
            self.wf(),
        ensures
            it.wf(),
            it.remaining() == self@,
            it.remaining_nodes() == spec_instance_nodes(self@),
    {
        let it = DevicePathNodeIterator {
            nodes: copy_bytes(&self.data),
            pos: 0,
            stop_condition: StopCondition::AnyEndNode,
        };
        proof {
            assert(it.remaining() =~= self@);
        }
        it
    }

    /// Returns a slice of the underlying bytes.
    pub fn as_bytes(&self) -> (r: &[u8])
        ensures
            r@ == self@,
    {
        self.data.as_slice()
    }

    /// Returns a boxed copy of the instance. The copy owns its own bytes:
    /// changing either side never affects the other.
    pub fn to_boxed(&self) -> (r: Box<DevicePathInstance>)
        requires
            self.wf(),
        ensures
            r.wf(),
            r@ == self@,
    {
        let data = copy_bytes(&self.data);
        Box::new(DevicePathInstance { data })
    }
}

impl PartialEq for DevicePathInstance {
    /// Structural equality of the underlying bytes.
    fn eq(&self, other: &Self) -> (r: bool) {
        bytes_eq(&self.data, &other.data)
    }
}

impl Eq for DevicePathInstance {}

impl vstd::std_specs::cmp::PartialEqSpecImpl for DevicePathInstance {
    open spec fn obeys_eq_spec() -> bool {
        true
    }

    open spec fn eq_spec(&self, other: &DevicePathInstance) -> bool {
        self@ == other@
    }
}

/// The first instance of a well-formed path is itself well formed and
/// fits inside the path.
proof fn lemma_instance_prefix(b: Seq<u8>)
    requires
        is_device_path(b),
    ensures
        4 <= spec_instance_size(b) <= b.len(),
        is_instance(b.take(spec_instance_size(b))),
    decreases b.len(),
{
    let l = spec_node_len(b);
    let k = spec_instance_size(b);
    if spec_front_is_end(b) {
        let head = b.take(k);
        assert(forall|i: int| 0 <= i < k ==> head[i] == b[i]);
        assert(spec_node_len(head) == l);
        assert(is_instance(head));
    } else {
        let tail = b.skip(l);
        lemma_instance_prefix(tail);
        let k2 = spec_instance_size(tail);
        assert(k == l + k2);
        let head = b.take(k);
        assert(forall|i: int| 0 <= i < k ==> head[i] == b[i]);
        assert(spec_node_len(head) == l);
        lemma_skip_index(b, l);
        assert(head.skip(l) =~= tail.take(k2));
        assert(is_instance(head));
    }
}

/// Splitting a well-formed path at its first instance boundary: the
/// instance list is that first instance, with the current partial
/// instance `acc` prepended, followed by the instances of the rest.
proof fn lemma_instances_from_split(b: Seq<u8>, acc: Seq<u8>)
    requires
        is_device_path(b),
    ensures
        4 <= spec_instance_size(b) <= b.len(),
        spec_instance_size(b) == b.len() || is_device_path(b.skip(spec_instance_size(b))),
        spec_instances_from(b, acc) == seq![acc + b.take(spec_instance_size(b))] + (
        if spec_instance_size(b) == b.len() {
            Seq::<Seq<u8>>::empty()
        } else {
            spec_instances_from(b.skip(spec_instance_size(b)), Seq::<u8>::empty())
        }),
    decreases b.len(),
{
    let l = spec_node_len(b);
    let k = spec_instance_size(b);
    if spec_front_is_end(b) {
        assert(k == l);
        if spec_front_is_end_entire(b) {
            assert(k == b.len());
        } else {
            assert(is_device_path(b.skip(k)));
            assert(b.skip(k).len() >= 4);
            assert(k < b.len());
        }
    } else {
        let tail = b.skip(l);
        lemma_instances_from_split(tail, acc + b.take(l));
        let k2 = spec_instance_size(tail);
        assert(k == l + k2);
        lemma_skip_index(b, l);
        assert((acc + b.take(l)) + tail.take(k2) =~= acc + b.take(k));
        assert(tail.skip(k2) =~= b.skip(k));
        if k2 == tail.len() {
            assert(k == b.len());
        } else {
            assert(is_device_path(b.skip(k)));
        }
    }
}

/// Iterator over the instances of a device path.
///
/// Returned by [`DevicePath::instance_iter`]. Not restartable.
#[derive(Debug)]
pub struct DevicePathInstanceIterator {
    nodes: Vec<u8>,
    pos: usize,
}

impl DevicePathInstanceIterator {
    /// The bytes not yet consumed.
    pub closed spec fn remaining(&self) -> Seq<u8> {
        self.nodes@.skip(self.pos as int)
    }

    /// What remains is either nothing or a well-formed device path.
    pub closed spec fn wf(&self) -> bool {
        &&& self.pos <= self.nodes@.len()
        &&& self.remaining().len() == 0 || is_device_path(self.remaining())
    }

    /// The instances this iterator will still yield, in order.
    pub closed spec fn remaining_instances(&self) -> Seq<Seq<u8>> {
        spec_instances(self.remaining())
    }

    /// Yield the next instance, terminator included, or `None` once the
    /// bytes run out.
    pub fn next(&mut self) -> (r: Option<DevicePathInstance>)
        requires
            old(self).wf(),
        ensures
            final(self).wf(),
            match r {
                Some(inst) => {
                    &&& inst.wf()
                    &&& old(self).remaining_instances().len() > 0
                    &&& inst@ == old(self).remaining_instances()[0]
                    &&& final(self).remaining_instances() == old(self).remaining_instances().skip(
                        1,
                    )
                    &&& inst@ == old(self).remaining().take(
                        spec_instance_size(old(self).remaining()),
                    )
                    &&& final(self).remaining() == old(self).remaining().skip(
                        spec_instance_size(old(self).remaining()),
                    )
                },
                None => {
                    &&& old(self).remaining().len() == 0
                    &&& old(self).remaining_instances().len() == 0
                    &&& final(self).remaining().len() == 0
                },
            },
    {
        let len = self.nodes.len();
        if self.pos == len {
            return None;
        }
        let ghost rem = self.remaining();
        proof {
            lemma_skip_index(self.nodes@, self.pos as int);
            lemma_instance_prefix(rem);
            lemma_instances_from_split(rem, Seq::<u8>::empty());
            assert(Seq::<u8>::empty() + rem.take(spec_instance_size(rem)) =~= rem.take(
                spec_instance_size(rem),
            ));
        }
        let ghost k = spec_instance_size(rem);

        // Find the end of the instance, which can be either kind of
        // terminator. Count the bytes up to and including that node.
        let mut node_iter = DevicePathNodeIterator {
            nodes: copy_range(&self.nodes, self.pos, len),
            pos: 0,
            stop_condition: StopCondition::NoMoreNodes,
        };
        proof {
            assert(node_iter.remaining() =~= rem);
        }
        let mut instance_size: usize = 0;
        loop
            invariant_except_break
                node_iter.wf(),
                node_iter.spec_policy() is NoMoreNodes,
                is_device_path(node_iter.remaining()),
                rem.len() <= usize::MAX,
                instance_size == rem.len() - node_iter.remaining().len(),
                k == instance_size + spec_instance_size(node_iter.remaining()),
            ensures
                instance_size == k,
            decreases node_iter.remaining().len(),
        {
            let ghost before = node_iter.remaining();
            let ghost it0 = node_iter;
            let next_node = node_iter.next();
            proof {
                assert(it0.remaining_nodes() == spec_nodes(before));
                assert(spec_nodes(before).len() >= 1);
            }
            assert(next_node is Some);
            let node = match next_node {
                Some(node) => node,
                None => {
                    return None;
                },
            };
            let node_size = node.length() as usize;
            proof {
                assert(node_size == spec_node_len(before));
                assert(instance_size + node_size <= rem.len());
            }
            instance_size = instance_size + node_size;
            if node.device_type().0 == DeviceType::END {
                proof {
                    assert(spec_instance_size(before) == spec_node_len(before));
                }
                break;
            }
            proof {
                assert(spec_instance_size(before) == node_size + spec_instance_size(
                    node_iter.remaining(),
                ));
            }
        }
        let head = copy_range(&self.nodes, self.pos, self.pos + instance_size);
        self.pos = self.pos + instance_size;
        proof {
            assert(head@ =~= rem.take(k));
            assert(self.remaining() =~= rem.skip(k));
            assert((seq![rem.take(k)] + spec_instances(rem.skip(k))).skip(1) =~= spec_instances(
                rem.skip(k),
            ));
            assert((seq![rem.take(k)] + Seq::<Seq<u8>>::empty()).skip(1) =~= Seq::<
                Seq<u8>,
            >::empty());
            if k == rem.len() {
                assert(spec_instances(self.remaining()) =~= Seq::<Seq<u8>>::empty());
            }
        }
        Some(DevicePathInstance { data: head })
    }
}

/// Law: the total size of a well-formed device path is the sum of its
/// nodes' declared lengths, every terminator included, and equals what
/// the bounds-checked size computation
/// ([`DevicePath::size_in_bytes_from_slice`]) returns.
pub proof fn lemma_total_size_is_sum_of_node_lengths(b: Seq<u8>)
    requires
        is_device_path(b),
    ensures
        spec_total_length(spec_nodes(b)) == b.len(),
        spec_path_size(b) == Some(b.len() as int),
    decreases b.len(),
{
    lemma_device_path_size(b);
    let l = spec_node_len(b);
    let front = spec_front_node(b);
    let rest = spec_nodes(b.skip(l));
    assert(front.len() == l);
    assert((seq![front] + rest).skip(1) =~= rest);
    if spec_front_is_end_entire(b) {
        assert(b.skip(l).len() == 0);
        assert(rest =~= Seq::<SpecNode>::empty());
        assert(spec_total_length(Seq::<SpecNode>::empty()) == 0);
        assert(spec_total_length(spec_nodes(b)) == front.len() + spec_total_length(
            spec_nodes(b).skip(1),
        ));
        assert(spec_nodes(b).skip(1) == rest);
    } else {
        lemma_total_size_is_sum_of_node_lengths(b.skip(l));
        assert(spec_total_length(spec_nodes(b)) == front.len() + spec_total_length(
            spec_nodes(b).skip(1),
        ));
        assert(spec_nodes(b).skip(1) == rest);
    }
}

/// Law: iterating the nodes of a whole path never yields the final
/// end-of-entire-path terminator.
pub proof fn lemma_path_nodes_exclude_end_entire(b: Seq<u8>)
    requires
        is_device_path(b),
    ensures
        forall|i: int|
            0 <= i < spec_path_nodes(b).len() ==> !(#[trigger] spec_path_nodes(b)[i]).is_end_entire(),
    decreases b.len(),
{
    if !spec_front_is_end_entire(b) {
        let l = spec_node_len(b);
        lemma_path_nodes_exclude_end_entire(b.skip(l));
        let front = spec_front_node(b);
        let rest = spec_path_nodes(b.skip(l));
        assert(!front.is_end_entire());
        assert(spec_path_nodes(b) == seq![front] + rest);
        assert forall|i: int| 0 <= i < spec_path_nodes(b).len() implies !(
        #[trigger] spec_path_nodes(b)[i]).is_end_entire() by {
            if i > 0 {
                assert(spec_path_nodes(b)[i] == rest[i - 1]);
            }
        }
    }
}

/// Law: iterating the nodes of one instance never yields the instance's
/// own terminator, of either subtype.
pub proof fn lemma_instance_nodes_exclude_end(b: Seq<u8>)
    requires
        is_instance(b),
    ensures
        forall|i: int|
            0 <= i < spec_instance_nodes(b).len() ==> !(
            #[trigger] spec_instance_nodes(b)[i]).is_end(),
    decreases b.len(),
{
    if !spec_front_is_end(b) {
        let l = spec_node_len(b);
        lemma_instance_nodes_exclude_end(b.skip(l));
        let front = spec_front_node(b);
        let rest = spec_instance_nodes(b.skip(l));
        assert(!front.is_end());
        assert(spec_instance_nodes(b) == seq![front] + rest);
        assert forall|i: int| 0 <= i < spec_instance_nodes(b).len() implies !(
        #[trigger] spec_instance_nodes(b)[i]).is_end() by {
            if i > 0 {
                assert(spec_instance_nodes(b)[i] == rest[i - 1]);
            }
        }
    }
}

/// Law: over a well-formed path, whole-path iteration yields exactly the
/// path's nodes with the final end-of-entire-path terminator dropped.
pub proof fn lemma_path_nodes_drop_terminator(b: Seq<u8>)
    requires
        is_device_path(b),
    ensures
        spec_nodes(b).len() == spec_path_nodes(b).len() + 1,
        spec_path_nodes(b) == spec_nodes(b).drop_last(),
        spec_nodes(b).last().is_end_entire(),
    decreases b.len(),
{
    let l = spec_node_len(b);
    let front = spec_front_node(b);
    if spec_front_is_end_entire(b) {
        assert(b.skip(l).len() == 0);
        assert(spec_nodes(b.skip(l)) =~= Seq::<SpecNode>::empty());
        assert(spec_nodes(b) =~= seq![front]);
        assert(spec_path_nodes(b) =~= spec_nodes(b).drop_last());
    } else {
        lemma_path_nodes_drop_terminator(b.skip(l));
        let rest = spec_nodes(b.skip(l));
        assert(spec_nodes(b) == seq![front] + rest);
        assert(spec_nodes(b).last() == rest.last());
        assert(spec_path_nodes(b) =~= spec_nodes(b).drop_last());
    }
}

/// Law: over a well-formed instance, node iteration yields exactly the
/// instance's nodes with its terminator dropped.
pub proof fn lemma_instance_nodes_drop_terminator(b: Seq<u8>)
    requires
        is_instance(b),
    ensures
        spec_nodes(b).len() == spec_instance_nodes(b).len() + 1,
        spec_instance_nodes(b) == spec_nodes(b).drop_last(),
        spec_nodes(b).last().is_end(),
    decreases b.len(),
{
    let l = spec_node_len(b);
    let front = spec_front_node(b);
    if spec_front_is_end(b) {
        assert(b.skip(l).len() == 0);
        assert(spec_nodes(b.skip(l)) =~= Seq::<SpecNode>::empty());
        assert(spec_nodes(b) =~= seq![front]);
        assert(spec_instance_nodes(b) =~= spec_nodes(b).drop_last());
    } else {
        lemma_instance_nodes_drop_terminator(b.skip(l));
        let rest = spec_nodes(b.skip(l));
        assert(spec_nodes(b) == seq![front] + rest);
        assert(spec_nodes(b).last() == rest.last());
        assert(spec_instance_nodes(b) =~= spec_nodes(b).drop_last());
    }
}

/// The interior end-of-instance terminators of a path split as: one for
/// the first instance boundary, if an instance follows, plus those of the
/// rest.
proof fn lemma_count_split(b: Seq<u8>)
    requires
        is_device_path(b),
        spec_terminators_tagged(b),
    ensures
        spec_count_end_instance(b) == if spec_instance_size(b) == b.len() {
            0int
        } else {
            1 + spec_count_end_instance(b.skip(spec_instance_size(b)))
        },
        spec_instance_size(b) != b.len() ==> spec_terminators_tagged(
            b.skip(spec_instance_size(b)),
        ),
    decreases b.len(),
{
    let l = spec_node_len(b);
    let k = spec_instance_size(b);
    lemma_instances_from_split(b, Seq::<u8>::empty());
    if spec_front_is_end(b) {
        if spec_front_is_end_entire(b) {
            assert(b.skip(l).len() == 0);
            assert(spec_count_end_instance(b.skip(l)) == 0);
        } else {
            assert(spec_front_node(b).is_end_instance());
            assert(is_device_path(b.skip(l)));
            assert(b.skip(l).len() >= 4);
            assert(k == l && k < b.len());
            assert(spec_count_end_instance(b) == 1 + spec_count_end_instance(b.skip(k)));
        }
    } else {
        let tail = b.skip(l);
        lemma_count_split(tail);
        lemma_instances_from_split(tail, Seq::<u8>::empty());
        let k2 = spec_instance_size(tail);
        assert(!spec_front_node(b).is_end_instance());
        if k2 == tail.len() {
            assert(k == b.len());
        } else {
            lemma_skip_index(b, l);
            lemma_skip_index(tail, k2);
            assert(tail.skip(k2) =~= b.skip(k));
        }
    }
}

/// Law: a path whose terminators all carry one of the two reserved
/// subtypes and which holds `n` interior end-of-instance terminators
/// splits into exactly `n + 1` instances, each of them itself well
/// formed: each ends in a terminator whose bytes are part of that
/// instance's extent.
pub proof fn lemma_instance_count(b: Seq<u8>)
    requires
        is_device_path(b),
        spec_terminators_tagged(b),
    ensures
        spec_instances(b).len() == spec_count_end_instance(b) + 1,
        forall|i: int|
            0 <= i < spec_instances(b).len() ==> is_instance(#[trigger] spec_instances(b)[i]),
    decreases b.len(),
{
    let k = spec_instance_size(b);
    lemma_instances_from_split(b, Seq::<u8>::empty());
    lemma_instance_prefix(b);
    lemma_count_split(b);
    let first = b.take(k);
    assert(Seq::<u8>::empty() + first =~= first);
    if k == b.len() {
        assert(spec_instances(b) == seq![first]);
        assert(spec_instances(b)[0] == first);
    } else {
        let rest = b.skip(k);
        lemma_instance_count(rest);
        assert(spec_instances(b) == seq![first] + spec_instances(rest));
        assert forall|i: int| 0 <= i < spec_instances(b).len() implies is_instance(
            #[trigger] spec_instances(b)[i],
        ) by {
            if i == 0 {
                assert(spec_instances(b)[0] == first);
            } else {
                assert(spec_instances(b)[i] == spec_instances(rest)[i - 1]);
            }
        }
    }
}

/// Protocol for accessing the device path that was passed in when
/// loading an image. The layout of the inner value is the same as a
/// [`DevicePath`].
#[derive(Debug)]
pub struct LoadedImageDevicePath(DevicePath);

impl LoadedImageDevicePath {
    /// Wrap a device path.
    pub fn new(path: DevicePath) -> (r: Self)
        ensures
            r@ == path@,
    {
        LoadedImageDevicePath(path)
    }

    /// The inner device path.
    pub fn device_path(&self) -> (r: &DevicePath)
        ensures
            r@ == self@,
    {
        &self.0
    }
}

impl View for LoadedImageDevicePath {
    type V = Seq<u8>;

    closed spec fn view(&self) -> Seq<u8> {
        self.0@
    }
}

/// Errors that may happen when a device path is handed to the external
/// text-conversion service to be turned into a string.
#[derive(Debug)]
pub enum DevicePathToTextError {
    /// Can't locate a handle buffer with handles associated with the
    /// text-conversion service.
    CantLocateHandleBuffer(crate::error::Error<()>),
    /// There is no handle supporting the text-conversion service.
    NoHandle,
    /// The handle supporting the text-conversion service exists but it
    /// could not be opened.
    CantOpenProtocol(crate::error::Error<()>),
    /// Failed to allocate pool memory.
    OutOfMemory,
}

/// Law: a slice shorter than the front node's declared length holds no
/// node, so the safe node constructor rejects it with the length error:
/// its contract returns `Err` exactly on the slices without a node.
pub proof fn lemma_truncated_node_rejected(b: Seq<u8>)
    requires
        b.len() < 4 || b.len() < spec_node_len(b),
    ensures
        !spec_has_node(b),
{
}

/// Law: no strict prefix of a well-formed device path measures as a
/// path, so the safe path constructors reject every truncation with the
/// length error instead of reading past the slice.
pub proof fn lemma_truncated_path_rejected(b: Seq<u8>, n: int)
    requires
        is_device_path(b),
        0 <= n < b.len(),
    ensures
        spec_path_size(b.take(n)) is None,
    decreases b.len(),
{
    let t = b.take(n);
    if n < 4 {
        assert(!spec_has_node(t));
    } else {
        assert(forall|i: int| 0 <= i < n ==> t[i] == b[i]);
        let l = spec_node_len(b);
        assert(spec_node_len(t) == l);
        if l > n {
            assert(!spec_has_node(t));
        } else if spec_front_is_end_entire(b) {
            // The terminator's length runs to the end of `b`, past `n`.
            assert(false);
        } else {
            lemma_truncated_path_rejected(b.skip(l), n - l);
            lemma_skip_index(b, l);
            assert(t.skip(l) =~= b.skip(l).take(n - l));
        }
    }
}

/// Law: the instances of a well-formed path concatenate back to exactly
/// the path's bytes: splitting loses nothing and invents nothing.
pub proof fn lemma_instances_cover_path(b: Seq<u8>)
    requires
        is_device_path(b),
    ensures
        spec_instances(b).flatten() == b,
    decreases b.len(),
{
    let k = spec_instance_size(b);
    lemma_instances_from_split(b, Seq::<u8>::empty());
    assert(Seq::<u8>::empty() + b.take(k) =~= b.take(k));
    if k == b.len() {
        assert(b.take(k) =~= b);
        let insts = spec_instances(b);
        assert(insts == seq![b] + Seq::<Seq<u8>>::empty());
        assert(insts =~= seq![b]);
        assert(insts.drop_first() =~= Seq::<Seq<u8>>::empty());
        assert(insts.flatten() == b + Seq::<Seq<u8>>::empty().flatten());
        assert(insts.flatten() =~= b);
    } else {
        lemma_instances_cover_path(b.skip(k));
        let insts = spec_instances(b);
        assert(insts == seq![b.take(k)] + spec_instances(b.skip(k)));
        assert(insts.first() == b.take(k));
        assert(insts.drop_first() =~= spec_instances(b.skip(k)));
        assert(insts.flatten() == b.take(k) + spec_instances(b.skip(k)).flatten());
        assert(b.take(k) + b.skip(k) =~= b);
    }
}

/// An owned copy of `v`.
fn copy_bytes(v: &Vec<u8>) -> (r: Vec<u8>)
    ensures
        r@ == v@,
{
    let r = copy_range(v, 0, v.len());
    proof {
        assert(r@ =~= v@);
    }
    r
}

/// An owned copy of `v[lo..hi]`.
fn copy_range(v: &Vec<u8>, lo: usize, hi: usize) -> (r: Vec<u8>)
    requires
        lo <= hi <= v@.len(),
    ensures
        r@ == v@.subrange(lo as int, hi as int),
{
    let mut r: Vec<u8> = Vec::new();
    let mut i: usize = lo;
    while i < hi
        invariant
            lo <= i <= hi,
            hi <= v@.len(),
            r@ == v@.subrange(lo as int, i as int),
        decreases hi - i,
    {
        r.push(v[i]);
        proof {
            assert(r@ =~= v@.subrange(lo as int, i + 1 as int));
        }
        i = i + 1;
    }
    r
}

/// Byte-for-byte comparison of two owned buffers.
fn bytes_eq(a: &Vec<u8>, b: &Vec<u8>) -> (r: bool)
    ensures
        r == (a@ =~= b@),
{
    if a.len() != b.len() {
        return false;
    }
    let n = a.len();
    let mut i: usize = 0;
    while i < n
        invariant
            i <= n,
            n == a@.len(),
            n == b@.len(),
            forall|j: int| 0 <= j < i ==> a@[j] == b@[j],
        decreases n - i,
    {
        if a[i] != b[i] {
            return false;
        }
        i = i + 1;
    }
    proof {
        assert(a@ =~= b@);
    }
    true
}

} // verus!
