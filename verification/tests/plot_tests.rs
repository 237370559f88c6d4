use scavenger::plot::parse_plot_filename;
use scavenger::plot::plot_filename;
use scavenger::plot::Plot;
use scavenger::plot::PlotError;

#[test]
fn filename_roundtrip() {
    assert_eq!(plot_filename(123, 0, 16), "123_0_16");
    assert_eq!(parse_plot_filename("123_0_16"), Some((123, 0, 16)));
    assert_eq!(
        parse_plot_filename(&plot_filename(u64::MAX, 7, 999)),
        Some((u64::MAX, 7, 999))
    );
}

#[test]
fn filename_trailing_component_ignored() {
    assert_eq!(parse_plot_filename("123_0_16_42"), Some((123, 0, 16)));
}

#[test]
fn filename_malformed_rejected() {
    assert_eq!(parse_plot_filename("plot.bad"), None);
    assert_eq!(parse_plot_filename("123_0"), None);
    assert_eq!(parse_plot_filename("123_0_"), None);
    assert_eq!(parse_plot_filename("123_x_16"), None);
    assert_eq!(parse_plot_filename("123_0_18446744073709551616"), None);
}

#[test]
fn malformed_plot_skipped() {
    assert_eq!(
        Plot::new("plot.bad", 4_194_304, false).err(),
        Some(PlotError::MalformedPlot)
    );
    let p = Plot::new("123_0_16", 16 * 4096 * 64, false).ok().unwrap();
    assert_eq!(p.account_id, 123);
    assert_eq!(p.start_nonce, 0);
    assert_eq!(p.nonces, 16);
}

#[test]
fn size_mismatch_rejected() {
    assert_eq!(
        Plot::new("123_0_16", 4_194_303, false).err(),
        Some(PlotError::SizeMismatch)
    );
}

#[test]
fn prepare_seeks_to_scoop() {
    let mut p = Plot::new("123_0_16", 16 * 4096 * 64, false).unwrap();
    assert_eq!(p.prepare(0), 0);
    assert_eq!(p.prepare(7), 7 * 16 * 64);
    assert_eq!(p.read_offset, 0);
}

#[test]
fn read_full_region_single_chunk() {
    // Chunk size exactly equal to the remaining bytes: one read, finished,
    // no zero-length trailing read.
    let mut p = Plot::new("123_0_16", 16 * 4096 * 64, false).unwrap();
    p.prepare(0);
    let plan = p.read(16 * 64, 0);
    assert_eq!(plan.bytes_to_read, 16 * 64);
    assert_eq!(plan.start_nonce, 0);
    assert!(plan.finished);
    assert_eq!(plan.seek_to, None);
    assert_eq!(p.read_offset, 16 * 64);
}

#[test]
fn read_chunked_reaches_same_offset() {
    // The final cursor is the full region whatever the chunk size.
    let mut p = Plot::new("123_0_16", 16 * 4096 * 64, false).unwrap();
    p.prepare(3);
    let mut finished_count = 0;
    let mut reads = 0;
    while p.read_offset < 16 * 64 {
        let plan = p.read(256, 3);
        assert!(plan.bytes_to_read > 0);
        reads += 1;
        if plan.finished {
            finished_count += 1;
        } else {
            assert_eq!(
                plan.seek_to,
                Some(3 * 16 * 64 + p.read_offset)
            );
        }
    }
    assert_eq!(reads, 4);
    assert_eq!(finished_count, 1);
    assert_eq!(p.read_offset, 16 * 64);

    let mut q = Plot::new("123_0_16", 16 * 4096 * 64, false).unwrap();
    q.prepare(3);
    while q.read_offset < 16 * 64 {
        q.read(64, 3);
    }
    assert_eq!(q.read_offset, p.read_offset);
}

#[test]
fn read_start_nonce_tracks_cursor() {
    let mut p = Plot::new("77_40_16", 16 * 4096 * 64, false).unwrap();
    p.prepare(0);
    let first = p.read(256, 0);
    assert_eq!(first.start_nonce, 40);
    let second = p.read(256, 0);
    assert_eq!(second.start_nonce, 44);
}

#[test]
fn direct_io_fallback_on_odd_chunk() {
    // Direct I/O with a 512-multiple chunk uses the direct handle; a chunk
    // that is no multiple of 512 falls back to the buffered handle.
    let mut p = Plot::new("123_0_16", 16 * 4096 * 64, true).unwrap();
    p.prepare(0);
    let plan = p.read(512, 0);
    assert!(plan.use_direct);

    let mut q = Plot::new("123_0_16", 16 * 4096 * 64, true).unwrap();
    q.prepare(0);
    let plan = q.read(448, 0);
    assert!(!plan.use_direct);
    assert_eq!(plan.bytes_to_read, 448);
}

#[test]
fn buffered_io_never_uses_direct_handle() {
    let mut p = Plot::new("123_0_16", 16 * 4096 * 64, false).unwrap();
    p.prepare(0);
    let plan = p.read(512, 0);
    assert!(!plan.use_direct);
}

#[test]
fn nonce_range_and_size_overflow_edges() {
    // A nonce count whose byte size leaves u64 can match no file length.
    assert_eq!(
        Plot::new("1_0_18446744073709551615", 1024, false).err(),
        Some(PlotError::SizeMismatch)
    );
    // A nonce range leaving the nonce space is malformed.
    assert_eq!(
        Plot::new("1_18446744073709551615_2", 2 * 4096 * 64, false).err(),
        Some(PlotError::MalformedPlot)
    );
    // The range ending exactly at the top of the nonce space is fine.
    let p = Plot::new("1_18446744073709551600_16", 16 * 4096 * 64, false).unwrap();
    assert_eq!(p.nonces, 16);
}
