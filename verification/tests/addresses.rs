//! Addresses, layouts and the word buffer.

use vector_image_renderer::DataType;
use vector_image_renderer::GpuAddress;
use vector_image_renderer::GpuAddressRange;
use vector_image_renderer::GpuAddressType;
use vector_image_renderer::GpuMemory;
use vector_image_renderer::MemoryLayout;
use vector_image_renderer::geometry::word_is_nan;
use vector_image_renderer::layer::instance_upload_ranges;

#[test]
fn address_roundtrip_all_types() {
    for ty in [GpuAddressType::Global, GpuAddressType::Instance, GpuAddressType::Shared] {
        for offset in [0u32, 1, 7, 0x1234, 0x00FF_FFFF] {
            let addr = GpuAddress::new(ty, offset);
            assert_eq!(addr.address_type(), ty);
            assert_eq!(addr.offset(), offset);
        }
    }
}

#[test]
fn address_constructors_tag() {
    assert_eq!(GpuAddress::global(5).address_type(), GpuAddressType::Global);
    assert_eq!(GpuAddress::instance(5).address_type(), GpuAddressType::Instance);
    assert_eq!(GpuAddress::shared(5).address_type(), GpuAddressType::Shared);
    assert_eq!(GpuAddress::global(5).to_raw(), 5);
    assert_eq!(GpuAddress::instance(5).to_raw(), 0x8000_0005);
    assert_eq!(GpuAddress::shared(5).to_raw(), 0x4000_0005);
}

#[test]
fn address_add_assign_advances_offset() {
    let mut addr = GpuAddress::global(10);
    addr.add_assign(22);
    assert_eq!(addr.offset(), 32);
    assert_eq!(addr.address_type(), GpuAddressType::Global);
}

#[test]
fn range_shrink_left_walks_forward() {
    let mut range = GpuAddressRange::new(GpuAddress::global(100), GpuAddress::global(160));
    assert_eq!(range.start().offset(), 100);
    assert_eq!(range.end().offset(), 160);
    assert!(!range.is_empty());
    range.shrink_left(20);
    assert_eq!(range.start().offset(), 120);
    range.shrink_left(40);
    assert_eq!(range.start().offset(), 160);
    assert!(range.is_empty());
}

#[test]
fn nan_words_are_recognised() {
    assert!(word_is_nan(f32::NAN.to_bits()));
    assert!(word_is_nan((0.0f32 / 0.0f32).to_bits()));
    assert!(!word_is_nan(1.0f32.to_bits()));
    assert!(!word_is_nan(0.0f32.to_bits()));
    assert!(!word_is_nan(f32::INFINITY.to_bits()));
    assert!(!word_is_nan(f32::NEG_INFINITY.to_bits()));
    assert!(!word_is_nan(f32::MIN_POSITIVE.to_bits()));
}

#[test]
fn data_type_alignment_policy() {
    assert_eq!(DataType::float().alignment(), 1);
    assert_eq!(DataType::vec2().alignment(), 2);
    assert_eq!(DataType::vec3().alignment(), 4);
    assert_eq!(DataType::vec4().alignment(), 4);
    assert_eq!(DataType::transform_2d().alignment(), 4);
    assert_eq!(DataType::transform_3d().alignment(), 16);
    assert_eq!(DataType::transform_2d().size(), 6);
    let five = DataType { scalar: vector_image_renderer::ScalarType::F32, size: 5 };
    assert_eq!(five.alignment(), 4);
    let seven = DataType { scalar: vector_image_renderer::ScalarType::F32, size: 7 };
    assert_eq!(seven.alignment(), 4);
}

#[test]
fn layout_offsets_are_aligned_and_increasing() {
    let mut layout = MemoryLayout::new(GpuAddressType::Instance);
    let a = layout.allocate(DataType::float());
    let b = layout.allocate(DataType::vec3());
    let c = layout.allocate(DataType::transform_2d());
    let d = layout.allocate(DataType::vec2());
    assert_eq!(a.offset(), 0);
    assert_eq!(b.offset(), 4);
    assert_eq!(c.offset(), 8);
    assert_eq!(d.offset(), 14);
    assert!(a.offset() < b.offset() && b.offset() < c.offset() && c.offset() < d.offset());
    assert_eq!(b.offset() % DataType::vec3().alignment(), 0);
    assert_eq!(c.offset() % DataType::transform_2d().alignment(), 0);
    assert_eq!(d.offset() % DataType::vec2().alignment(), 0);
    for addr in [a, b, c, d] {
        assert_eq!(addr.address_type(), GpuAddressType::Instance);
    }
}

#[test]
fn layout_replay_is_deterministic() {
    let mut first = MemoryLayout::new(GpuAddressType::Shared);
    let mut second = MemoryLayout::new(GpuAddressType::Shared);
    let calls = [
        DataType::vec4(),
        DataType::float(),
        DataType::transform_2d(),
        DataType::vec2(),
        DataType::vec3(),
    ];
    let mut offsets_first = Vec::new();
    let mut offsets_second = Vec::new();
    for ty in calls {
        offsets_first.push(first.allocate(ty).offset());
    }
    for ty in calls {
        offsets_second.push(second.allocate(ty).offset());
    }
    assert_eq!(offsets_first, offsets_second);
}

#[test]
fn memory_push_set_roundtrip() {
    let mut memory = GpuMemory::new();
    let first = memory.push(&[1, 2, 3, 4]);
    let second = memory.push(&[5, 6, 7, 8]);
    assert_eq!(first.offset(), 0);
    assert_eq!(second.offset(), 4);
    assert_eq!(memory.as_slice(), &[1, 2, 3, 4, 5, 6, 7, 8]);
    memory.set(first, &[9, 10, 11, 12]);
    assert_eq!(memory.as_slice(), &[9, 10, 11, 12, 5, 6, 7, 8]);
    memory.set(first, &[9, 10, 11, 12]);
    assert_eq!(memory.as_slice(), &[9, 10, 11, 12, 5, 6, 7, 8]);
    assert_eq!(memory.len(), 8);
}

#[test]
fn upload_ranges_tile_the_allocation() {
    let range = GpuAddressRange::new(GpuAddress::global(64), GpuAddress::global(64 + 48));
    let windows = instance_upload_ranges(range, 16, 3);
    assert_eq!(windows.len(), 3);
    for (k, window) in windows.iter().enumerate() {
        assert_eq!(window.start().offset(), 64 + 16 * k as u32);
        assert_eq!(window.end().offset(), 64 + 16 * (k as u32 + 1));
        assert_eq!(window.start().address_type(), GpuAddressType::Global);
    }
}
