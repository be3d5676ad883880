use capture_core::format::{layout_from_descriptor, normalize_buffer, BufferLayout, FormatDescriptor};

#[test]
fn planar_buffer_interleaves() {
    let planar = vec![101, 102, 103, 104, 201, 202, 203, 204];
    let out = normalize_buffer(&planar, BufferLayout::PlanarStereo);
    assert_eq!(out, vec![101, 201, 102, 202, 103, 203, 104, 204]);
}

#[test]
fn odd_planar_buffer_discards_the_trailing_sample() {
    let planar = vec![1, 2, 3, 4, 5];
    let out = normalize_buffer(&planar, BufferLayout::PlanarStereo);
    assert_eq!(out, vec![1, 3, 2, 4]);
}

#[test]
fn mono_buffer_duplicates_each_sample() {
    let mono = vec![7, 8];
    let out = normalize_buffer(&mono, BufferLayout::Mono);
    assert_eq!(out, vec![7, 7, 8, 8]);
}

#[test]
fn interleaved_buffer_passes_through() {
    let stereo = vec![1, -1, 2, -2];
    let out = normalize_buffer(&stereo, BufferLayout::InterleavedStereo);
    assert_eq!(out, stereo);
}

#[test]
fn empty_buffers_normalize_to_empty() {
    let empty: Vec<i32> = Vec::new();
    assert_eq!(normalize_buffer(&empty, BufferLayout::PlanarStereo), empty);
    assert_eq!(normalize_buffer(&empty, BufferLayout::Mono), empty);
    assert_eq!(normalize_buffer(&empty, BufferLayout::InterleavedStereo), empty);
}

#[test]
fn descriptor_selects_the_layout() {
    assert_eq!(layout_from_descriptor(None), BufferLayout::InterleavedStereo);
    assert_eq!(
        layout_from_descriptor(Some(FormatDescriptor { channels: 2, planar: true })),
        BufferLayout::PlanarStereo
    );
    assert_eq!(
        layout_from_descriptor(Some(FormatDescriptor { channels: 1, planar: false })),
        BufferLayout::Mono
    );
    assert_eq!(
        layout_from_descriptor(Some(FormatDescriptor { channels: 1, planar: true })),
        BufferLayout::Mono
    );
    assert_eq!(
        layout_from_descriptor(Some(FormatDescriptor { channels: 2, planar: false })),
        BufferLayout::InterleavedStereo
    );
    assert_eq!(
        layout_from_descriptor(Some(FormatDescriptor { channels: 6, planar: true })),
        BufferLayout::InterleavedStereo
    );
}
