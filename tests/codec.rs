use brotli_codec::{
    clamp_window, compress, compress_fixed, compress_into, compression_bound, decompress, decompress_fixed,
    written_prefix, BrotliStatus, Dictionary, DEFAULT_WINDOW_SIZE,
};

fn noise(len: usize, seed: u64) -> Vec<u8> {
    let mut x = seed.wrapping_mul(6364136223846793005).wrapping_add(1442695040888963407);
    let mut v = Vec::with_capacity(len);
    for _ in 0..len {
        x ^= x << 13;
        x ^= x >> 7;
        x ^= x << 17;
        v.push((x >> 24) as u8);
    }
    v
}

fn text(len: usize) -> Vec<u8> {
    let words = b"storage_load_bytes32 msg_sender call_contract the quick brown fox ";
    words.iter().cycle().take(len).copied().collect()
}

fn fits_exactly(input: &[u8], level: u32) {
    let bound = compression_bound(input.len(), level);
    let mut out = vec![0u8; bound];
    let r = compress_fixed(input, &mut out, level, DEFAULT_WINDOW_SIZE, Dictionary::Empty);
    assert!(r.is_ok(), "level {} len {}", level, input.len());
    assert!(r.unwrap().len() <= bound);
}

#[test]
fn bound_exact_values() {
    assert_eq!(compression_bound(0, 5), 17);
    assert_eq!(compression_bound(0, 0), 64);
    assert_eq!(compression_bound(1000, 11), 1022);
    assert_eq!(compression_bound(1000, 1), 1064);
    assert_eq!(compression_bound(1000, 3), 1022);
    assert_eq!(compression_bound(100_000, 11), 100_047);
    assert_eq!(compression_bound(100_000, 2), 100_840);
}

#[test]
fn bound_suffices_small_inputs_every_level() {
    for level in 0..=11 {
        fits_exactly(&[], level);
        fits_exactly(&[0x5a], level);
        fits_exactly(&noise(4096, 1), level);
    }
}

#[test]
fn bound_suffices_noise_low_levels() {
    let input = noise(1 << 20, 2);
    for level in 0..=3 {
        fits_exactly(&input, level);
    }
}

#[test]
fn bound_suffices_noise_mid_levels() {
    let input = noise(1 << 16, 3);
    for level in 4..=9 {
        fits_exactly(&input, level);
    }
}

#[test]
fn bound_suffices_noise_high_levels() {
    let input = noise(1 << 14, 4);
    for level in 10..=11 {
        fits_exactly(&input, level);
    }
}

#[test]
fn round_trip_every_level() {
    let input = text(5000);
    for level in 0..=11 {
        for dict in [Dictionary::Empty, Dictionary::StylusProgram] {
            let c = compress(&input, level, DEFAULT_WINDOW_SIZE, dict).unwrap();
            assert_eq!(decompress(&c, dict).unwrap(), input, "level {}", level);
        }
    }
}

#[test]
fn round_trip_windows() {
    let mut input = text(3000);
    input.extend(noise(3000, 5));
    for window in [10u32, 16, 22, 24] {
        for level in [0u32, 5, 9] {
            for dict in [Dictionary::Empty, Dictionary::StylusProgram] {
                let c = compress(&input, level, window, dict).unwrap();
                assert_eq!(decompress(&c, dict).unwrap(), input);
            }
        }
    }
}

#[test]
fn compression_shrinks_repetitive_input() {
    let input = vec![b'a'; 10_000];
    let c = compress(&input, 9, DEFAULT_WINDOW_SIZE, Dictionary::Empty).unwrap();
    assert!(c.len() < 100);
    assert_ne!(c, input);
}

#[test]
fn dictionary_mismatch_is_not_silent() {
    let input = text(4000);
    let pairs = [
        (Dictionary::StylusProgram, Dictionary::Empty),
        (Dictionary::Empty, Dictionary::StylusProgram),
    ];
    for (enc, dec) in pairs {
        let c = compress(&input, 11, DEFAULT_WINDOW_SIZE, enc).unwrap();
        match decompress(&c, dec) {
            Ok(out) => assert_eq!(out, input),
            Err(s) => assert_eq!(s, BrotliStatus::Failure),
        }
    }
}

#[test]
fn dictionary_changes_the_stream() {
    let input = text(4000);
    let plain = compress(&input, 11, DEFAULT_WINDOW_SIZE, Dictionary::Empty).unwrap();
    let with = compress(&input, 11, DEFAULT_WINDOW_SIZE, Dictionary::StylusProgram).unwrap();
    assert!(with.len() <= plain.len());
    assert_eq!(decompress(&with, Dictionary::StylusProgram).unwrap(), input);
}

#[test]
fn compress_fixed_one_byte_short_fails() {
    let input = noise(2000, 6);
    let full = compress(&input, 5, DEFAULT_WINDOW_SIZE, Dictionary::Empty).unwrap();
    let mut exact = vec![0u8; full.len()];
    let ok = compress_fixed(&input, &mut exact, 5, DEFAULT_WINDOW_SIZE, Dictionary::Empty);
    assert_eq!(ok.unwrap(), &full[..]);
    let mut short = vec![0u8; full.len() - 1];
    let r = compress_fixed(&input, &mut short, 5, DEFAULT_WINDOW_SIZE, Dictionary::Empty);
    assert_eq!(r, Err(BrotliStatus::Failure));
}

#[test]
fn compress_fixed_zero_capacity_fails() {
    let mut out: [u8; 0] = [];
    let r = compress_fixed(b"abc", &mut out, 1, DEFAULT_WINDOW_SIZE, Dictionary::Empty);
    assert_eq!(r, Err(BrotliStatus::Failure));
}

#[test]
fn decompress_fixed_one_byte_short_fails() {
    let input = text(3000);
    let c = compress(&input, 6, DEFAULT_WINDOW_SIZE, Dictionary::StylusProgram).unwrap();
    let mut exact = vec![0u8; input.len()];
    let ok = decompress_fixed(&c, &mut exact, Dictionary::StylusProgram);
    assert_eq!(ok.unwrap(), &input[..]);
    let mut short = vec![0u8; input.len() - 1];
    let r = decompress_fixed(&c, &mut short, Dictionary::StylusProgram);
    assert_eq!(r, Err(BrotliStatus::Failure));
}

#[test]
fn decompress_fixed_leaves_tail_alone() {
    let input = b"hello hello hello".to_vec();
    let c = compress(&input, 4, DEFAULT_WINDOW_SIZE, Dictionary::Empty).unwrap();
    let mut out = vec![0xeeu8; input.len() + 5];
    let n = decompress_fixed(&c, &mut out, Dictionary::Empty).unwrap().len();
    assert_eq!(n, input.len());
    assert_eq!(&out[..n], &input[..]);
    assert_eq!(&out[n..], &[0xee; 5]);
}

#[test]
fn empty_input_round_trip() {
    for level in [0u32, 1, 2, 6, 11] {
        let c = compress(&[], level, DEFAULT_WINDOW_SIZE, Dictionary::Empty).unwrap();
        assert!(!c.is_empty());
        assert_eq!(decompress(&c, Dictionary::Empty).unwrap(), Vec::<u8>::new());
        let mut out = [0u8; 4];
        assert_eq!(decompress_fixed(&c, &mut out, Dictionary::Empty).unwrap(), &[] as &[u8]);
    }
}

#[test]
fn compress_into_appends_after_existing() {
    let input = text(1000);
    let prefix = vec![1u8, 2, 3];
    let out = compress_into(&input, prefix.clone(), 7, DEFAULT_WINDOW_SIZE, Dictionary::Empty)
        .unwrap();
    let alone = compress(&input, 7, DEFAULT_WINDOW_SIZE, Dictionary::Empty).unwrap();
    assert_eq!(&out[..3], &prefix[..]);
    assert_eq!(&out[3..], &alone[..]);
    assert_eq!(decompress(&out[3..], Dictionary::Empty).unwrap(), input);
}

#[test]
fn decompress_rejects_garbage() {
    assert_eq!(decompress(&[0xff, 0xff, 0xff, 0xff], Dictionary::Empty), Err(BrotliStatus::Failure));
    let mut out = [0u8; 64];
    let r = decompress_fixed(&[0xff, 0xff, 0xff, 0xff], &mut out, Dictionary::Empty);
    assert_eq!(r, Err(BrotliStatus::Failure));
}

#[test]
fn decompress_rejects_truncated_stream() {
    let input = noise(5000, 7);
    let c = compress(&input, 5, DEFAULT_WINDOW_SIZE, Dictionary::Empty).unwrap();
    let r = decompress(&c[..c.len() / 2], Dictionary::Empty);
    assert_eq!(r, Err(BrotliStatus::Failure));
}

#[test]
fn decompress_empty_input_fails() {
    assert_eq!(decompress(&[], Dictionary::Empty), Err(BrotliStatus::Failure));
}

#[test]
fn written_prefix_checks_bounds() {
    let buf = [1u8, 2, 3, 4];
    assert_eq!(written_prefix(&buf, 2, true), Ok(&buf[..2]));
    assert_eq!(written_prefix(&buf, 4, true), Ok(&buf[..]));
    assert_eq!(written_prefix(&buf, 5, true), Err(BrotliStatus::Failure));
    assert_eq!(written_prefix(&buf, 2, false), Err(BrotliStatus::Failure));
}

#[test]
fn window_is_clamped_like_brotli() {
    assert_eq!(clamp_window(0), 10);
    assert_eq!(clamp_window(9), 10);
    assert_eq!(clamp_window(10), 10);
    assert_eq!(clamp_window(22), 22);
    assert_eq!(clamp_window(24), 24);
    assert_eq!(clamp_window(25), 24);
    assert_eq!(clamp_window(100), 24);
    assert_eq!(clamp_window(0x7fff_ffff), 24);
    assert_eq!(clamp_window(0x8000_0000), 10);
    assert_eq!(clamp_window(u32::MAX), 10);
}

#[test]
fn out_of_range_windows_with_dictionary() {
    let input = text(2000);
    for window in [0u32, 5, 64, 100, 0x8000_0000, u32::MAX] {
        let c = compress(&input, 5, window, Dictionary::StylusProgram).unwrap();
        assert_eq!(decompress(&c, Dictionary::StylusProgram).unwrap(), input);
        let same = compress(&input, 5, clamp_window(window), Dictionary::StylusProgram).unwrap();
        assert_eq!(c, same);
    }
}

#[test]
fn equal_calls_agree() {
    let input = noise(3000, 8);
    let mut a = vec![0u8; 3100];
    let mut b = vec![0xffu8; 3100];
    let ra = compress_fixed(&input, &mut a, 3, 18, Dictionary::Empty).map(|s| s.to_vec());
    let rb = compress_fixed(&input, &mut b, 3, 18, Dictionary::Empty).map(|s| s.to_vec());
    assert_eq!(ra, rb);
}
