use dispatch_bench::config::{CaseConfig, DispatchStrategy};
use dispatch_bench::naming::{
    gen_asm_paths, gen_bin_paths, gen_name, gen_path, gen_paths, gen_src_paths,
};

fn case(num_types: u32, num_fns: u32, num_calls: u32) -> CaseConfig {
    CaseConfig { num_types, num_fns, num_calls }
}

#[test]
fn strategy_names() {
    assert_eq!(DispatchStrategy::Static.name(), "static");
    assert_eq!(DispatchStrategy::Dynamic.name(), "dynamic");
}

#[test]
fn source_names_are_zero_padded() {
    let (fixed, dynamic) = gen_src_paths(&case(2, 2, 1));
    assert_eq!(fixed, "static-0002-0002-0001.rs");
    assert_eq!(dynamic, "dynamic-0002-0002-0001.rs");
}

#[test]
fn binary_and_assembly_names() {
    let config = case(12, 345, 6789);
    assert_eq!(
        gen_bin_paths(&config),
        (String::from("static-0012-0345-6789.bin"), String::from("dynamic-0012-0345-6789.bin"))
    );
    assert_eq!(
        gen_asm_paths(&config),
        (String::from("static-0012-0345-6789.S"), String::from("dynamic-0012-0345-6789.S"))
    );
}

#[test]
fn wide_numbers_are_not_cut() {
    let (fixed, dynamic) = gen_paths(&case(10000, 123456, 4294967295), "rs");
    assert_eq!(fixed, "static-10000-123456-4294967295.rs");
    assert_eq!(dynamic, "dynamic-10000-123456-4294967295.rs");
}

#[test]
fn zero_is_padded_too() {
    let (fixed, _) = gen_paths(&case(0, 9, 10), "txt");
    assert_eq!(fixed, "static-0000-0009-0010.txt");
    let (fixed, _) = gen_paths(&case(99, 100, 999), "");
    assert_eq!(fixed, "static-0099-0100-0999.");
    let (fixed, _) = gen_paths(&case(1000, 9999, 1), "o");
    assert_eq!(fixed, "static-1000-9999-0001.o");
}

#[test]
fn gen_path_of_one_variant() {
    assert_eq!(gen_path(DispatchStrategy::Dynamic, &case(1, 2, 3), "bin"), "dynamic-0001-0002-0003.bin");
    assert_eq!(gen_path(DispatchStrategy::Static, &case(1, 2, 3), "S"), "static-0001-0002-0003.S");
}

#[test]
fn names_depend_on_the_numbers_only() {
    let first = gen_src_paths(&case(7, 8, 9));
    let second = gen_src_paths(&case(7, 8, 9));
    assert_eq!(first, second);
    assert_ne!(gen_src_paths(&case(7, 8, 9)), gen_src_paths(&case(7, 9, 8)));
    assert_ne!(gen_src_paths(&case(1, 11, 1)), gen_src_paths(&case(11, 1, 1)));
}

#[test]
fn names_with_two_numbers() {
    assert_eq!(gen_name(DispatchStrategy::Static, &[12, 3], "rs"), "static-0012-0003.rs");
    assert_eq!(gen_name(DispatchStrategy::Dynamic, &[1, 20000], "bin"), "dynamic-0001-20000.bin");
}

#[test]
fn names_with_any_count_of_numbers() {
    assert_eq!(gen_name(DispatchStrategy::Static, &[], "rs"), "static.rs");
    assert_eq!(gen_name(DispatchStrategy::Static, &[7], "S"), "static-0007.S");
    assert_eq!(gen_name(DispatchStrategy::Dynamic, &[1, 2, 3, 4], "x"), "dynamic-0001-0002-0003-0004.x");
}

#[test]
fn names_with_three_numbers_are_the_names_of_artifacts() {
    for config in [case(0, 0, 0), case(1, 22, 333), case(4444, 55555, 6)] {
        for strategy in [DispatchStrategy::Static, DispatchStrategy::Dynamic] {
            assert_eq!(
                gen_name(strategy, &[config.num_types, config.num_fns, config.num_calls], "rs"),
                gen_path(strategy, &config, "rs")
            );
        }
    }
}
