//! Properties of the library on concrete values.

use mtld3d_core::content_hash::{hash_words, little_endian_bytes};
use mtld3d_core::d3d::{
    D3DFMT_A8, D3DFMT_A8R8G8B8, D3DFMT_D24S8, D3DFMT_DXT1, D3DFMT_INTZ, D3DFMT_R5G6B5,
    D3DSAMP_MAGFILTER, D3DSAMP_MIPMAPLODBIAS, D3DTEXF_POINT, FETCH4_DISABLE, FETCH4_ENABLE,
};
use mtld3d_core::dxso::opcode::Opcode;
use mtld3d_core::fetch4::Fetch4State;
use mtld3d_core::format::{
    block_row_pitch, compute_mip_count, compute_mip_size, compute_volume_mip_count,
    depth_format_bytes_per_pixel, is_depth_format, linear_mip_size, linear_row_pitch,
    map_d3d_depth_format, map_d3d_format, map_d3d_format_device, resolve_mip_levels, surface_bytes,
};
use mtld3d_core::format_probe::FormatProbeKey;
use mtld3d_core::fullscreen_resize::{ExternalResizeAction, ExternalResizeGuard, REASSERT_BUDGET};
use mtld3d_core::gamma::{identity_level, identity_ramp, is_identity, is_usable, to_lut};
use mtld3d_core::gpu_caps::{DeviceCapsFlags, GpuCaps};
use mtld3d_core::ids::{BufferId, IdCounter, ProgramId, TextureId};
use mtld3d_core::level_authority::{LevelAuthorityMask, WritePlan};
use mtld3d_core::library_index::{LibraryIndex, LibraryLookup};
use mtld3d_core::staging_coverage::StagingCoverage;
use mtld3d_core::text::{decimal, signed_decimal};
use std::hash::Hasher;
use xxhash_rust::xxh3::Xxh3;

/// The hash of the words, fed one after the other.
fn streamed(words: &[u32]) -> u64 {
    let mut hasher = Xxh3::new();
    for word in words {
        hasher.write(&word.to_le_bytes());
    }
    hasher.finish()
}

#[test]
fn numerals_are_those_of_the_standard_library() {
    for n in [0u64, 7, 10, 99, 100, 1024, 65535, 4294967296, u64::MAX] {
        assert_eq!(decimal(n), format!("{n}"));
    }
    for n in [0i32, 5, -1, -10, i32::MAX, i32::MIN] {
        assert_eq!(signed_decimal(n), format!("{n}"));
    }
    assert_ne!(decimal(1), decimal(10));
}

#[test]
fn hashes_agree_with_the_streaming_form() {
    for count in [0usize, 1, 2, 3, 4, 5, 16, 17, 32, 60, 61, 256, 257, 1000] {
        let words: Vec<u32> = (0..count as u32).map(|i| i.wrapping_mul(2654435761)).collect();
        assert_eq!(hash_words(&words), streamed(&words), "{count} words");
        assert_eq!(ProgramId::from_tokens(&words).raw(), streamed(&words));
    }
}

#[test]
fn the_hash_of_nothing_is_the_published_one() {
    assert_eq!(hash_words(&[]), 0x2D06_8005_38D3_94C2);
}

#[test]
fn words_are_hashed_least_significant_byte_first() {
    assert_eq!(
        little_endian_bytes(&[0x0403_0201, 0xFFFE_0200]),
        vec![1, 2, 3, 4, 0, 2, 0xFE, 0xFF]
    );
    assert_eq!(little_endian_bytes(&[]), Vec::<u8>::new());
}

#[test]
fn programs_are_identified_by_their_tokens() {
    let a = ProgramId::from_tokens(&[0xFFFE_0200, 0x0000_FFFF]);
    let b = ProgramId::from_tokens(&[0xFFFE_0200, 0x0000_FFFF]);
    let c = ProgramId::from_tokens(&[0xFFFF_0200, 0x0000_FFFF]);
    assert_eq!(a, b);
    assert_ne!(a, c);
}

#[test]
fn probe_keys_are_hashes_of_the_fields() {
    assert_eq!(FormatProbeKey::from_probe(1, 2, 3).raw(), streamed(&[1, 2, 3]));
    assert_eq!(
        FormatProbeKey::from_query(4, 1, 2, 3).raw(),
        streamed(&[4, 1, 2, 3])
    );
    assert_ne!(
        FormatProbeKey::from_probe(1, 2, 3).raw(),
        FormatProbeKey::from_probe(2, 1, 3).raw()
    );
    assert_ne!(
        FormatProbeKey::from_query(4, 1, 2, 3).raw(),
        FormatProbeKey::from_query(5, 1, 2, 3).raw()
    );
}

#[test]
fn counters_hand_out_numbers_from_one_on() {
    let mut textures = IdCounter::new();
    let mut buffers = IdCounter::new();
    let first = TextureId::new_unique(&mut textures);
    let second = TextureId::new_unique(&mut textures);
    assert_eq!(first.raw(), 1);
    assert_eq!(second.raw(), 2);
    assert_ne!(first, second);
    assert_eq!(BufferId::new_unique(&mut buffers).raw(), 1);
    assert_eq!(BufferId::new_unique(&mut buffers).raw(), 2);
    assert_eq!(TextureId::new_unique(&mut textures).raw(), 3);
}

#[test]
fn outcomes_are_remembered_by_key() {
    let mut index: LibraryIndex<String, u64> = LibraryIndex::default();
    assert_eq!(index.lookup("a"), LibraryLookup::Unknown);
    index.record("a".to_owned(), Some(7));
    index.record("b".to_owned(), None);
    assert_eq!(index.lookup("a"), LibraryLookup::Ready(7));
    assert_eq!(index.lookup("b"), LibraryLookup::Failed);
    assert_eq!(index.lookup("c"), LibraryLookup::Unknown);
    index.record("a".to_owned(), None);
    assert_eq!(index.lookup("a"), LibraryLookup::Failed);
}

#[test]
fn forgetting_failures_keeps_the_successes() {
    let mut index: LibraryIndex<u64, u32> = LibraryIndex::default();
    for key in 0..100u64 {
        let outcome = if key % 3 == 0 { None } else { Some(key as u32 + 1) };
        index.record(key, outcome);
    }
    index.forget_failures();
    for key in 0..100u64 {
        if key % 3 == 0 {
            assert_eq!(index.lookup(&key), LibraryLookup::Unknown);
        } else {
            assert_eq!(index.lookup(&key), LibraryLookup::Ready(key as u32 + 1));
        }
    }
    index.clear();
    assert_eq!(index.lookup(&1), LibraryLookup::Unknown);
}

#[test]
fn opcode_numbers_are_unique() {
    let mut seen: Vec<Opcode> = Vec::new();
    for number in 0..=u16::MAX {
        if let Some(op) = Opcode::from_u16(number) {
            assert!(!seen.contains(&op), "{op:?}");
            seen.push(op);
        }
    }
    assert!(seen.contains(&Opcode::Mov));
    assert!(seen.contains(&Opcode::End));
}

#[test]
fn the_identity_ramp_is_usable_and_needs_no_table() {
    let ramp = identity_ramp();
    assert!(is_identity(&ramp));
    assert!(is_usable(&ramp));
    assert_eq!(identity_level(0), 0);
    assert_eq!(identity_level(128), 32896);
    assert_eq!(identity_level(255), u16::MAX);
}

#[test]
fn tables_of_different_ramps_differ() {
    let ramp = identity_ramp();
    let mut other = identity_ramp();
    other.blue[17] = 1;
    let (a, b) = (to_lut(&ramp), to_lut(&other));
    assert_ne!(a, b);
    assert_eq!(a[4 * 17 + 2], 17 * 257);
    assert_eq!(b[4 * 17 + 2], 1);
    assert_eq!(b[4 * 17 + 3], u16::MAX);
}

#[test]
fn depth_tables_cover_the_same_formats() {
    for format in 0..200u32 {
        assert_eq!(is_depth_format(format), map_d3d_depth_format(format).is_some());
        assert_eq!(
            is_depth_format(format),
            depth_format_bytes_per_pixel(format).is_some()
        );
    }
    assert!(is_depth_format(D3DFMT_D24S8));
    assert!(!is_depth_format(D3DFMT_A8R8G8B8));
}

#[test]
fn devices_agree_on_the_bytes_of_a_source_pixel() {
    for format in 0..200u32 {
        let portable = map_d3d_format_device(format, false).map(|m| m.bytes_per_pixel());
        let native = map_d3d_format_device(format, true).map(|m| m.bytes_per_pixel());
        assert_eq!(portable, native, "{format}");
    }
}

#[test]
fn pitches_are_exact() {
    assert_eq!(linear_row_pitch(3, 2), 8);
    assert_eq!(linear_row_pitch(4, 2), 8);
    assert_eq!(linear_row_pitch(5, 1), 8);
    assert_eq!(linear_row_pitch(7, 4), 28);
    assert_eq!(block_row_pitch(5, 4, 8, 0), 16);
    assert_eq!(block_row_pitch(5, 1, 0, 4), 20);
}

#[test]
fn level_sizes_are_exact() {
    let dxt1 = map_d3d_format(D3DFMT_DXT1).expect("DXT1 is mapped");
    assert_eq!(compute_mip_size(16, 8, 0, &dxt1), (16, 8, 64, 32));
    assert_eq!(compute_mip_size(16, 8, 4, &dxt1), (1, 1, 8, 8));
    let rgb565 = map_d3d_format(D3DFMT_R5G6B5).expect("R5G6B5 is mapped");
    assert_eq!(compute_mip_size(3, 3, 0, &rgb565), (3, 3, 24, 8));
    assert_eq!(linear_mip_size(3, 3, 1, 2), (1, 1, 4, 4));
    assert_eq!(surface_bytes(16, 8, D3DFMT_DXT1), 64);
}

#[test]
fn full_chains_end_at_one_texel() {
    assert_eq!(compute_mip_count(1, 1), 1);
    assert_eq!(compute_mip_count(256, 1), 9);
    assert_eq!(compute_mip_count(255, 300), 9);
    assert_eq!(compute_volume_mip_count(4, 4, 64), 7);
    for extent in [1u32, 2, 3, 5, 64, 1000, 4096, 16384] {
        let count = compute_mip_count(extent, 1);
        assert_eq!(linear_mip_size(extent, 1, count - 1, 4).0, 1);
        if count > 1 {
            assert_ne!(linear_mip_size(extent, 1, count - 2, 4).0, 1);
        }
    }
    assert_eq!(resolve_mip_levels(0, 9), 9);
    assert_eq!(resolve_mip_levels(4, 9), 4);
    assert_eq!(resolve_mip_levels(12, 9), 9);
}

#[test]
fn overrides_can_be_applied_twice() {
    let caps = GpuCaps {
        unified_memory: true,
        min_linear_texture_align: 16,
        device_caps: DeviceCapsFlags::from_bits(DeviceCapsFlags::SAMPLE_COUNT_4),
    };
    for managed in [false, true] {
        for aligned in [false, true] {
            let once = caps.with_intel_overrides(managed, aligned);
            assert_eq!(once, once.with_intel_overrides(managed, aligned));
            assert!(once.min_linear_texture_align >= caps.min_linear_texture_align);
            assert!(caps.unified_memory || !once.unified_memory);
            assert!(once.device_caps.contains(DeviceCapsFlags::SAMPLE_COUNT_4));
        }
    }
}

#[test]
fn reasserts_end_with_the_budget() {
    let mut guard = ExternalResizeGuard::new();
    let monitor = (2560, 1440);
    let mut reasserts: u32 = 0;
    for step in 0..100u32 {
        if guard.decide((800 + step, 600), monitor) == ExternalResizeAction::Reassert {
            reasserts += 1;
        }
    }
    assert_eq!(reasserts, u32::from(REASSERT_BUDGET));
    assert_eq!(
        guard.decide((2562, 1441), monitor),
        ExternalResizeAction::Covered
    );
    assert_eq!(
        guard.decide((800, 600), monitor),
        ExternalResizeAction::Reassert
    );
    assert_eq!(
        guard.decide((800, 600), monitor),
        ExternalResizeAction::Suppressed
    );
}

#[test]
fn the_last_writer_of_a_level_holds_it() {
    let mut mask = LevelAuthorityMask::new();
    mask.gpu_wrote(2, 3);
    mask.staging_wrote(2, 3);
    mask.gpu_wrote(2, 3);
    mask.gpu_wrote(0, 3);
    mask.staging_wrote(0, 4);
    assert!(mask.gpu_holds(2, 3));
    assert!(mask.gpu_holds(0, 3));
    assert!(!mask.gpu_holds(0, 4));
    assert_eq!(mask.plan_write(2, 3, false), WritePlan::ReadBackFirst);
    assert_eq!(mask.plan_write(2, 3, true), WritePlan::Overwrite);
    mask.staging_wrote(2, 3);
    assert_eq!(mask.plan_write(2, 3, false), WritePlan::WriteStaging);
    mask.gpu_wrote(6, 0);
    mask.gpu_wrote(0, 32);
    assert!(!mask.gpu_holds(6, 0));
    assert!(!mask.gpu_holds(0, 32));
}

#[test]
fn a_latch_that_was_read_can_be_restored() {
    let mut state = Fetch4State::new();
    state.set_sampler(3, D3DSAMP_MIPMAPLODBIAS as usize, FETCH4_ENABLE);
    state.set_texture(3, Some(D3DFMT_A8), true);
    let saved = state.enabled();
    assert_eq!(saved, 1 << 3);
    assert_eq!(state.masks(), (1 << 3, 1 << 3));
    state.set_sampler(3, D3DSAMP_MIPMAPLODBIAS as usize, FETCH4_DISABLE);
    assert_eq!(state.masks(), (0, 0));
    state.restore_enabled(saved);
    assert_eq!(state.enabled(), saved);
    assert_eq!(state.masks(), (1 << 3, 1 << 3));
    state.set_sampler(3, D3DSAMP_MIPMAPLODBIAS as usize, 0x3F80_0000);
    assert_eq!(state.enabled(), saved);
    state.set_sampler(3, D3DSAMP_MAGFILTER as usize, D3DTEXF_POINT + 1);
    assert_eq!(state.masks(), (0, 0));
    state.set_texture(5, Some(D3DFMT_INTZ), true);
    assert_eq!(state.raw_red_mask(), 0);
}

#[test]
fn a_staging_is_full_once_it_was_marked() {
    let mut coverage = StagingCoverage::new();
    assert!(!coverage.is_full());
    coverage.mark_full();
    assert!(coverage.is_full());
}

#[test]
fn a_level_past_the_mask_is_never_claimed() {
    let mut mask = LevelAuthorityMask::new();
    mask.gpu_wrote(0, 3);
    for (face, level) in [(0, 32), (0, 35), (6, 3), (u32::MAX, 0), (0, usize::MAX)] {
        mask.gpu_wrote(face, level);
        assert!(!mask.gpu_holds(face, level), "{face} {level}");
        assert_eq!(mask.plan_write(face, level, true), WritePlan::WriteStaging);
        mask.staging_wrote(face, level);
    }
    for level in 0..32 {
        assert_eq!(mask.gpu_holds(0, level), level == 3);
    }
    mask.gpu_wrote(5, 31);
    assert!(mask.gpu_holds(5, 31));
}
