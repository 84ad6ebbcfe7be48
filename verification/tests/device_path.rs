use uefi::device_path::{
    ByteConversionError, DevicePath, DevicePathHeader, DevicePathNode, DevicePathNodeEnum,
    DeviceSubType, DeviceType, NodeConversionError, HEADER_SIZE,
};
use uefi::end;

/// Append a node to `path` from raw data.
fn add_node(path: &mut Vec<u8>, device_type: u8, sub_type: u8, node_data: &[u8]) {
    path.push(device_type);
    path.push(sub_type);
    path.extend(
        u16::try_from(HEADER_SIZE + node_data.len())
            .unwrap()
            .to_le_bytes(),
    );
    path.extend(node_data);
}

/// Create a test device path list as raw bytes.
fn create_raw_device_path() -> Vec<u8> {
    let mut raw_data = Vec::new();

    // First path instance.
    add_node(&mut raw_data, 0xa0, 0xb0, &[10, 11]);
    add_node(&mut raw_data, 0xa1, 0xb1, &[20, 21, 22, 23]);
    add_node(
        &mut raw_data,
        DeviceType::END,
        DeviceSubType::END_INSTANCE,
        &[],
    );
    // Second path instance.
    add_node(&mut raw_data, 0xa2, 0xb2, &[30, 31]);
    add_node(&mut raw_data, 0xa3, 0xb3, &[40, 41, 42, 43]);
    add_node(
        &mut raw_data,
        DeviceType::END,
        DeviceSubType::END_ENTIRE,
        &[],
    );

    raw_data
}

/// Check that `node` has the expected content.
fn check_node(node: &DevicePathNode, device_type: u8, sub_type: u8, node_data: &[u8]) {
    assert_eq!(node.device_type().0, device_type);
    assert_eq!(node.sub_type().0, sub_type);
    assert_eq!(
        node.length(),
        u16::try_from(HEADER_SIZE + node_data.len()).unwrap()
    );
    assert_eq!(node.data(), node_data);
}

/// Collect the nodes an iterator yields.
fn collect_nodes(mut iter: uefi::device_path::DevicePathNodeIterator) -> Vec<DevicePathNode> {
    let mut nodes = Vec::new();
    while let Some(node) = iter.next() {
        nodes.push(node);
    }
    nodes
}

#[test]
fn test_device_path_nodes() {
    let raw_data = create_raw_device_path();
    let dp = DevicePath::try_from_bytes(&raw_data).unwrap();

    // Check that the size is the sum of the nodes' lengths.
    assert_eq!(dp.as_bytes().len(), 6 + 8 + 4 + 6 + 8 + 4);

    // Check the list's node iter.
    let nodes = collect_nodes(dp.node_iter());
    check_node(&nodes[0], 0xa0, 0xb0, &[10, 11]);
    check_node(&nodes[1], 0xa1, 0xb1, &[20, 21, 22, 23]);
    check_node(&nodes[2], DeviceType::END, DeviceSubType::END_INSTANCE, &[]);
    check_node(&nodes[3], 0xa2, 0xb2, &[30, 31]);
    check_node(&nodes[4], 0xa3, 0xb3, &[40, 41, 42, 43]);
    // The end-entire node is not returned by the iterator.
    assert_eq!(nodes.len(), 5);
}

#[test]
fn test_device_path_instances() {
    let raw_data = create_raw_device_path();
    let dp = DevicePath::try_from_bytes(&raw_data).unwrap();

    // Check the list's instance iter.
    let mut iter = dp.instance_iter();
    let mut instance = iter.next().unwrap();
    assert_eq!(instance.as_bytes().len(), 6 + 8 + 4);

    // Check the first instance's node iter.
    let nodes = collect_nodes(instance.node_iter());
    check_node(&nodes[0], 0xa0, 0xb0, &[10, 11]);
    check_node(&nodes[1], 0xa1, 0xb1, &[20, 21, 22, 23]);
    // The end node is not returned by the iterator.
    assert_eq!(nodes.len(), 2);

    // Check second instance.
    instance = iter.next().unwrap();
    assert_eq!(instance.as_bytes().len(), 6 + 8 + 4);

    let nodes = collect_nodes(instance.node_iter());
    check_node(&nodes[0], 0xa2, 0xb2, &[30, 31]);
    check_node(&nodes[1], 0xa3, 0xb3, &[40, 41, 42, 43]);
    // The end node is not returned by the iterator.
    assert_eq!(nodes.len(), 2);

    // Only two instances.
    assert!(iter.next().is_none());
}

#[test]
fn test_to_owned() {
    let raw_data = create_raw_device_path();
    let dp = DevicePath::try_from_bytes(&raw_data).unwrap();

    let owned_dp = dp.to_boxed();
    let owned_dp_ref = &*owned_dp;
    assert_eq!(owned_dp_ref.as_bytes().len(), dp.as_bytes().len());
    assert_eq!(owned_dp_ref, &dp);

    // The copy owns its own storage: it outlives the original.
    drop(dp);
    assert_eq!(owned_dp.as_bytes(), raw_data.as_slice());
}

#[test]
fn test_device_path_node_from_bytes() {
    let mut raw_data = Vec::new();
    let node = [0xa0, 0xb0];
    let node_data = &[10, 11];

    // Raw data is less than the size of a node header.
    raw_data.push(node[0]);
    assert!(DevicePathNode::try_from_bytes(raw_data.as_slice()).is_err());

    // Raw data is long enough to hold a whole node.
    raw_data.push(node[1]);
    raw_data.extend(
        u16::try_from(HEADER_SIZE + node_data.len())
            .unwrap()
            .to_le_bytes(),
    );
    raw_data.extend(node_data);
    let dp = DevicePathNode::try_from_bytes(raw_data.as_slice()).unwrap();

    assert_eq!(dp.length(), 6);
    check_node(&dp, 0xa0, 0xb0, &[10, 11]);

    // The node's declared length exceeds the raw_data slice.
    raw_data[2] += 1;
    assert!(DevicePathNode::try_from_bytes(raw_data.as_slice()).is_err());
}

#[test]
fn test_device_path_nodes_from_bytes() {
    let raw_data = create_raw_device_path();
    let dp = DevicePath::try_from_bytes(raw_data.as_slice()).unwrap();

    // Check that the size is the sum of the nodes' lengths.
    assert_eq!(dp.as_bytes().len(), 6 + 8 + 4 + 6 + 8 + 4);

    // Check the list's node iter.
    let nodes = collect_nodes(dp.node_iter());
    check_node(&nodes[0], 0xa0, 0xb0, &[10, 11]);
    check_node(&nodes[1], 0xa1, 0xb1, &[20, 21, 22, 23]);
    check_node(&nodes[2], DeviceType::END, DeviceSubType::END_INSTANCE, &[]);
    check_node(&nodes[3], 0xa2, 0xb2, &[30, 31]);
    check_node(&nodes[4], 0xa3, 0xb3, &[40, 41, 42, 43]);
    // The end-entire node is not returned by the iterator.
    assert_eq!(nodes.len(), 5);
}

/// Test converting from a generic node to a specific node type.
#[test]
fn test_specific_node_from_device_path_node() {
    let mut raw_data = Vec::new();
    add_node(
        &mut raw_data,
        DeviceType::END,
        DeviceSubType::END_INSTANCE,
        &[],
    );
    let node = DevicePathNode::try_from_bytes(raw_data.as_slice()).unwrap();

    assert!(end::Instance::try_from_node(&node).is_ok());
    assert_eq!(
        end::Entire::try_from_node(&node).unwrap_err(),
        NodeConversionError::DifferentType
    );
}

#[test]
fn test_header_little_endian_length() {
    let raw_data = [0x01, 0x02, 0x34, 0x12];
    let header = DevicePathHeader::try_from_bytes(&raw_data).unwrap();
    assert_eq!(header.device_type.0, 0x01);
    assert_eq!(header.sub_type.0, 0x02);
    assert_eq!(header.length, 0x1234);

    // A slice shorter than the header is rejected.
    assert_eq!(
        DevicePathHeader::try_from_bytes(&raw_data[..3]).unwrap_err(),
        ByteConversionError::InvalidLength
    );
}

#[test]
fn test_size_in_bytes_matches_node_lengths() {
    let raw_data = create_raw_device_path();
    assert_eq!(
        DevicePath::size_in_bytes_from_slice(&raw_data).unwrap(),
        6 + 8 + 4 + 6 + 8 + 4
    );

    // Trailing garbage after the terminator is not counted.
    let mut with_garbage = raw_data.clone();
    with_garbage.extend([0xde, 0xad]);
    assert_eq!(
        DevicePath::size_in_bytes_from_slice(&with_garbage).unwrap(),
        36
    );
    let dp = DevicePath::try_from_bytes(&with_garbage).unwrap();
    assert_eq!(dp.as_bytes(), &raw_data[..]);
}

#[test]
fn test_truncated_path_rejected() {
    let raw_data = create_raw_device_path();

    // Cutting the path anywhere before its real end makes the safe
    // constructor fail instead of reading out of bounds.
    for cut in 0..raw_data.len() {
        assert_eq!(
            DevicePath::try_from_bytes(&raw_data[..cut]).unwrap_err(),
            ByteConversionError::InvalidLength
        );
        assert_eq!(
            DevicePath::size_in_bytes_from_slice(&raw_data[..cut]).unwrap_err(),
            ByteConversionError::InvalidLength
        );
    }

    // A node whose declared length undercuts its own header is rejected.
    let undersized = [0xa0, 0xb0, 0x03, 0x00];
    assert_eq!(
        DevicePathNode::try_from_bytes(&undersized).unwrap_err(),
        ByteConversionError::InvalidLength
    );
    assert_eq!(
        DevicePath::size_in_bytes_from_slice(&undersized).unwrap_err(),
        ByteConversionError::InvalidLength
    );
}

#[test]
fn test_as_enum() {
    // An end-entire node becomes the matching variant.
    let mut raw_data = Vec::new();
    add_node(
        &mut raw_data,
        DeviceType::END,
        DeviceSubType::END_ENTIRE,
        &[],
    );
    let node = DevicePathNode::try_from_bytes(&raw_data).unwrap();
    assert!(matches!(
        node.as_enum().unwrap(),
        DevicePathNodeEnum::EndEntire(_)
    ));

    // An end-instance node becomes the matching variant.
    let mut raw_data = Vec::new();
    add_node(
        &mut raw_data,
        DeviceType::END,
        DeviceSubType::END_INSTANCE,
        &[],
    );
    let node = DevicePathNode::try_from_bytes(&raw_data).unwrap();
    assert!(matches!(
        node.as_enum().unwrap(),
        DevicePathNodeEnum::EndInstance(_)
    ));

    // A pair with no registered kind is unsupported.
    let mut raw_data = Vec::new();
    add_node(&mut raw_data, 0xa0, 0xb0, &[10, 11]);
    let node = DevicePathNode::try_from_bytes(&raw_data).unwrap();
    assert_eq!(
        node.as_enum().unwrap_err(),
        NodeConversionError::UnsupportedType
    );

    // A terminator with a payload has the wrong shape for its kind.
    let mut raw_data = Vec::new();
    add_node(
        &mut raw_data,
        DeviceType::END,
        DeviceSubType::END_INSTANCE,
        &[1, 2],
    );
    let node = DevicePathNode::try_from_bytes(&raw_data).unwrap();
    assert_eq!(
        node.as_enum().unwrap_err(),
        NodeConversionError::InvalidLength
    );
    assert_eq!(
        end::Instance::try_from_node(&node).unwrap_err(),
        NodeConversionError::InvalidLength
    );
}

#[test]
fn test_instance_copy_is_independent() {
    let raw_data = create_raw_device_path();
    let dp = DevicePath::try_from_bytes(&raw_data).unwrap();

    let mut iter = dp.instance_iter();
    let instance = iter.next().unwrap();
    let copy = instance.to_boxed();
    assert_eq!(&*copy, &instance);

    drop(instance);
    assert_eq!(copy.as_bytes(), &raw_data[..18]);
}

#[test]
fn test_single_instance_path() {
    // A path without interior terminators is one instance, and that
    // instance includes the end-entire terminator's bytes.
    let mut raw_data = Vec::new();
    add_node(&mut raw_data, 0xa0, 0xb0, &[10, 11]);
    add_node(
        &mut raw_data,
        DeviceType::END,
        DeviceSubType::END_ENTIRE,
        &[],
    );
    let dp = DevicePath::try_from_bytes(&raw_data).unwrap();

    let mut iter = dp.instance_iter();
    let instance = iter.next().unwrap();
    assert_eq!(instance.as_bytes(), raw_data.as_slice());
    assert!(iter.next().is_none());

    // Whole-path node iteration yields only the one interior node.
    let nodes = collect_nodes(dp.node_iter());
    assert_eq!(nodes.len(), 1);
    check_node(&nodes[0], 0xa0, 0xb0, &[10, 11]);
}

#[test]
fn test_minimal_path() {
    // The smallest well-formed path: a bare end-entire terminator.
    let mut raw_data = Vec::new();
    add_node(
        &mut raw_data,
        DeviceType::END,
        DeviceSubType::END_ENTIRE,
        &[],
    );
    let dp = DevicePath::try_from_bytes(&raw_data).unwrap();
    assert_eq!(dp.as_bytes().len(), 4);
    assert!(collect_nodes(dp.node_iter()).is_empty());

    let mut iter = dp.instance_iter();
    assert_eq!(iter.next().unwrap().as_bytes(), raw_data.as_slice());
    assert!(iter.next().is_none());

    // The empty slice holds no path at all.
    assert!(DevicePath::try_from_bytes(&[]).is_err());
}

#[test]
fn test_node_equality_is_structural() {
    let mut a = Vec::new();
    add_node(&mut a, 0xa0, 0xb0, &[10, 11]);
    let mut b = Vec::new();
    add_node(&mut b, 0xa0, 0xb0, &[10, 11]);
    let mut c = Vec::new();
    add_node(&mut c, 0xa0, 0xb0, &[10, 12]);

    let node_a = DevicePathNode::try_from_bytes(&a).unwrap();
    let node_b = DevicePathNode::try_from_bytes(&b).unwrap();
    let node_c = DevicePathNode::try_from_bytes(&c).unwrap();
    assert_eq!(node_a, node_b);
    assert_ne!(node_a, node_c);
}

#[test]
fn test_is_end_entire() {
    let mut raw_data = Vec::new();
    add_node(
        &mut raw_data,
        DeviceType::END,
        DeviceSubType::END_INSTANCE,
        &[],
    );
    add_node(
        &mut raw_data,
        DeviceType::END,
        DeviceSubType::END_ENTIRE,
        &[],
    );
    let instance_end = DevicePathNode::try_from_bytes(&raw_data[..4]).unwrap();
    let entire_end = DevicePathNode::try_from_bytes(&raw_data[4..]).unwrap();
    assert!(!instance_end.is_end_entire());
    assert!(entire_end.is_end_entire());
    assert_eq!(entire_end.full_type().0 .0, DeviceType::END);
    assert_eq!(entire_end.full_type().1 .0, DeviceSubType::END_ENTIRE);
}
