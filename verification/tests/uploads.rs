use rusty_d3d12::{
    memcpy_subresource, update_subresources, ByteCount, CopyCommand, Format, MemcpyDest,
    PlacedSubresourceFootprint, Resource, ResourceDesc, ResourceDimension, SubresourceData,
    SubresourceFootprint, TextureCopyLocation,
};

#[test]
fn memcpy_copies_rows_into_pitched_layout() {
    // two slices of two rows of three bytes, tightly packed
    let src: Vec<u8> = (1..=12).collect();
    let mut dest = vec![0xffu8; 40];
    memcpy_subresource(
        &mut dest,
        MemcpyDest { offset: 2, row_pitch: 8, slice_pitch: 16 },
        &src,
        MemcpyDest { offset: 0, row_pitch: 3, slice_pitch: 6 },
        3,
        2,
        2,
    );
    let mut expected = vec![0xffu8; 40];
    expected[2..5].copy_from_slice(&[1, 2, 3]);
    expected[10..13].copy_from_slice(&[4, 5, 6]);
    expected[18..21].copy_from_slice(&[7, 8, 9]);
    expected[26..29].copy_from_slice(&[10, 11, 12]);
    assert_eq!(dest, expected);
}

#[test]
fn memcpy_with_no_rows_changes_nothing() {
    let mut dest = vec![5u8; 4];
    memcpy_subresource(&mut dest, MemcpyDest { offset: 100, row_pitch: 1, slice_pitch: 1 }, &[], MemcpyDest { offset: 0, row_pitch: 0, slice_pitch: 0 }, 7, 0, 3);
    assert_eq!(dest, vec![5u8; 4]);
}

#[test]
fn upload_of_a_buffer() {
    let dst = Resource { this: 1 };
    let upload = Resource { this: 2 };
    let desc = ResourceDesc::default().with_dimension(ResourceDimension::Buffer).with_width(4);
    let layout = PlacedSubresourceFootprint::default()
        .with_offset(ByteCount(4))
        .with_footprint(SubresourceFootprint::default().with_width(4).with_row_pitch(ByteCount(4)));
    let bytes = [9u8, 8, 7, 6];
    let data = SubresourceData::default().with_data(&bytes).with_row_pitch(ByteCount(4)).with_slice_pitch(ByteCount(4));
    let mut mapped = vec![0u8; 8];
    let (commands, size) = update_subresources(&dst, &desc, &upload, &mut mapped, 0, 1, ByteCount(8), &[layout], &[1], &[ByteCount(4)], &[data]);
    assert_eq!(size, ByteCount(8));
    assert_eq!(mapped, vec![0, 0, 0, 0, 9, 8, 7, 6]);
    assert_eq!(
        commands,
        vec![CopyCommand::Buffer {
            dest: dst,
            dest_offset: ByteCount(0),
            source: upload,
            source_offset: ByteCount(4),
            span: ByteCount(4),
        }]
    );
}

#[test]
fn upload_of_texture_subresources() {
    let dst = Resource { this: 10 };
    let upload = Resource { this: 20 };
    let desc = ResourceDesc::default().with_dimension(ResourceDimension::Texture2D);
    let fp = SubresourceFootprint::default().with_format(Format::R8_UNorm).with_width(2).with_height(2).with_row_pitch(ByteCount(4));
    let l0 = PlacedSubresourceFootprint::default().with_offset(ByteCount(0)).with_footprint(fp);
    let l1 = PlacedSubresourceFootprint::default().with_offset(ByteCount(8)).with_footprint(fp);
    let a = [1u8, 2, 3, 4];
    let b = [5u8, 6, 7, 8];
    let da = SubresourceData::default().with_data(&a).with_row_pitch(ByteCount(2)).with_slice_pitch(ByteCount(4));
    let db = SubresourceData::default().with_data(&b).with_row_pitch(ByteCount(2)).with_slice_pitch(ByteCount(4));
    let mut mapped = vec![0u8; 16];
    let (commands, _) = update_subresources(&dst, &desc, &upload, &mut mapped, 3, 2, ByteCount(16), &[l0, l1], &[2, 2], &[ByteCount(2), ByteCount(2)], &[da, db]);
    assert_eq!(mapped, vec![1, 2, 0, 0, 3, 4, 0, 0, 5, 6, 0, 0, 7, 8, 0, 0]);
    assert_eq!(
        commands,
        vec![
            CopyCommand::Texture {
                dest: TextureCopyLocation::new_subresource_index(&dst, 3),
                source: TextureCopyLocation::new_placed_footprint(&upload, l0),
            },
            CopyCommand::Texture {
                dest: TextureCopyLocation::new_subresource_index(&dst, 4),
                source: TextureCopyLocation::new_placed_footprint(&upload, l1),
            },
        ]
    );
}

#[test]
fn overlapping_uploads_keep_the_later_subresource() {
    let dst = Resource { this: 10 };
    let upload = Resource { this: 20 };
    let desc = ResourceDesc::default().with_dimension(ResourceDimension::Texture2D);
    let fp = SubresourceFootprint::default().with_format(Format::R8_UNorm).with_width(2).with_height(1).with_row_pitch(ByteCount(2));
    let l0 = PlacedSubresourceFootprint::default().with_offset(ByteCount(0)).with_footprint(fp);
    let l1 = PlacedSubresourceFootprint::default().with_offset(ByteCount(1)).with_footprint(fp);
    let a = [1u8, 2];
    let b = [3u8, 4];
    let da = SubresourceData::default().with_data(&a).with_row_pitch(ByteCount(2)).with_slice_pitch(ByteCount(2));
    let db = SubresourceData::default().with_data(&b).with_row_pitch(ByteCount(2)).with_slice_pitch(ByteCount(2));
    let mut mapped = vec![9u8; 4];
    update_subresources(&dst, &desc, &upload, &mut mapped, 0, 2, ByteCount(4), &[l0, l1], &[1, 1], &[ByteCount(2), ByteCount(2)], &[da, db]);
    assert_eq!(mapped, vec![1, 3, 4, 9]);
}

#[test]
fn memcpy_with_overlapping_rows_keeps_the_later_row() {
    let src: Vec<u8> = (1..=6).collect();
    let mut dest = vec![0u8; 5];
    memcpy_subresource(
        &mut dest,
        MemcpyDest { offset: 0, row_pitch: 2, slice_pitch: 4 },
        &src,
        MemcpyDest { offset: 0, row_pitch: 3, slice_pitch: 6 },
        3,
        2,
        1,
    );
    assert_eq!(dest, vec![1, 2, 4, 5, 6]);
}
