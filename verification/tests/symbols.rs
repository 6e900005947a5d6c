use dispatch_bench::symbols::{
    count_matching_lines, count_symbols, method_marker, wrapper_marker, LINE_FEED,
};

#[test]
fn markers_are_the_generated_names() {
    assert_eq!(method_marker(), b"do_io_m");
    assert_eq!(wrapper_marker(), b"do_io_f");
    assert_eq!(LINE_FEED, b'\n');
}

#[test]
fn counts_methods_and_wrappers() {
    let listing = b"0000000000001130 t _ZN4main8do_io_f017h1a2b3c4d5e6f7a8bE\n\
0000000000001150 t _ZN4main8do_io_f117h2a2b3c4d5e6f7a8bE\n\
0000000000001170 t _ZN42_$LT$main..T0$u20$as$u20$main..Io$GT$7do_io_m17h3a2b3c4d5e6f7a8bE\n\
0000000000001190 t _ZN42_$LT$main..T1$u20$as$u20$main..Io$GT$7do_io_m17h4a2b3c4d5e6f7a8bE\n\
00000000000011b0 t _ZN42_$LT$main..T2$u20$as$u20$main..Io$GT$7do_io_m17h5a2b3c4d5e6f7a8bE\n\
00000000000011d0 T main\n\
                 U memcpy\n";
    assert_eq!(count_symbols(listing), (3, 2));
}

#[test]
fn empty_listing_counts_nothing() {
    assert_eq!(count_symbols(b""), (0, 0));
    assert_eq!(count_symbols(b"\n\n\n"), (0, 0));
    assert_eq!(count_symbols(b"T main\nU memcpy\n"), (0, 0));
}

#[test]
fn a_line_counts_once_however_often_it_matches() {
    assert_eq!(count_symbols(b"do_io_m do_io_m do_io_m\n"), (1, 0));
    assert_eq!(count_symbols(b"do_io_f1 calls do_io_m and do_io_f2\n"), (1, 1));
}

#[test]
fn last_line_needs_no_line_feed() {
    assert_eq!(count_symbols(b"do_io_m"), (1, 0));
    assert_eq!(count_symbols(b"x\ndo_io_f"), (0, 1));
    assert_eq!(count_symbols(b"do_io_f\ndo_io_f"), (0, 2));
}

#[test]
fn a_name_split_over_two_lines_does_not_count() {
    assert_eq!(count_symbols(b"do_io\n_m\ndo_\nio_f\n"), (0, 0));
    assert_eq!(count_symbols(b"do_io_\nm do_io_f\n"), (0, 1));
}

#[test]
fn near_misses_do_not_count() {
    assert_eq!(count_symbols(b"do_io_\ndo_io_x\nDO_IO_M\ndo_io\no_io_m\n"), (0, 0));
    assert_eq!(count_symbols(b"xdo_io_mx\n"), (1, 0));
    assert_eq!(count_symbols(b"do_do_io_f\n"), (0, 1));
    assert_eq!(count_symbols(b"do_io_do_io_m\n"), (1, 0));
}

#[test]
fn carriage_returns_and_other_bytes_are_ordinary() {
    assert_eq!(count_symbols(b"a do_io_m\r\nb do_io_f\r\n"), (1, 1));
    assert_eq!(count_symbols(&[0xff, 0xfe, b'd', b'o', b'_', b'i', b'o', b'_', b'm', 0x00, b'\n']), (1, 0));
}

#[test]
fn count_matching_lines_with_other_patterns() {
    let text = b"alpha\nbeta\ngamma\nalphabet\n\nbet";
    assert_eq!(count_matching_lines(text, b"alpha"), 2);
    assert_eq!(count_matching_lines(text, b"bet"), 3);
    assert_eq!(count_matching_lines(text, b"a"), 4);
    assert_eq!(count_matching_lines(text, b"gammas"), 0);
    assert_eq!(count_matching_lines(text, b"a\nb"), 0);
}

#[test]
fn the_empty_pattern_stands_in_every_line() {
    assert_eq!(count_matching_lines(b"a\n\nb\n", b""), 3);
    assert_eq!(count_matching_lines(b"a\n\nb", b""), 3);
    assert_eq!(count_matching_lines(b"", b""), 0);
    assert_eq!(count_matching_lines(b"\n", b""), 1);
}

#[test]
fn counts_agree_with_line_by_line_search() {
    let listing = "T main\nt do_io_f0\nt do_io_f1\nt do_io_m\nt <T0 as Io>::do_io_m\nU do_io\nt do_io_f10\n";
    let methods = listing.lines().filter(|line| line.contains("do_io_m")).count();
    let wrappers = listing.lines().filter(|line| line.contains("do_io_f")).count();
    assert_eq!(count_symbols(listing.as_bytes()), (methods, wrappers));
    assert_eq!((methods, wrappers), (2, 3));
}
