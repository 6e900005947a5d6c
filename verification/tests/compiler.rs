use dispatch_bench::compiler::{compiler, run_rustc, run_rustc_asm, run_rustc_bin, symbol_lister};
use dispatch_bench::config::{CompileOpts, Emit};

fn opts(opt_level: u32) -> CompileOpts {
    CompileOpts { emit_asm: false, symbols: false, opt_level }
}

#[test]
fn programs() {
    assert_eq!(compiler(), "rustc");
    assert_eq!(symbol_lister(), "nm");
}

#[test]
fn emit_words_and_extensions() {
    assert_eq!(Emit::Link.flag(), "link");
    assert_eq!(Emit::Asm.flag(), "asm");
    assert_eq!(Emit::Link.extension(), "bin");
    assert_eq!(Emit::Asm.extension(), "S");
}

#[test]
fn compiler_arguments_in_order() {
    let args = run_rustc("cases/static-0001-0001-0001.rs", "cases/static-0001-0001-0001.bin", "link", &opts(0));
    assert_eq!(
        args,
        vec![
            "cases/static-0001-0001-0001.rs",
            "--emit",
            "link",
            "-o",
            "cases/static-0001-0001-0001.bin",
            "-Copt-level=0",
        ]
    );
}

#[test]
fn optimisation_level_is_written_in_decimal() {
    assert_eq!(run_rustc("a", "b", "link", &opts(3))[5], "-Copt-level=3");
    assert_eq!(run_rustc("a", "b", "link", &opts(12))[5], "-Copt-level=12");
    assert_eq!(run_rustc("a", "b", "link", &opts(u32::MAX))[5], "-Copt-level=4294967295");
}

#[test]
fn binary_run_asks_for_a_linked_binary() {
    assert_eq!(
        run_rustc_bin("in.rs", "out.bin", &opts(2)),
        vec!["in.rs", "--emit", "link", "-o", "out.bin", "-Copt-level=2"]
    );
}

#[test]
fn assembly_run_asks_for_assembly_text() {
    assert_eq!(
        run_rustc_asm("in.rs", "out.S", &opts(1)),
        vec!["in.rs", "--emit", "asm", "-o", "out.S", "-Copt-level=1"]
    );
}

#[test]
fn the_toggles_of_the_build_do_not_change_the_arguments() {
    let plain = run_rustc_bin("x", "y", &CompileOpts { emit_asm: false, symbols: false, opt_level: 1 });
    let full = run_rustc_bin("x", "y", &CompileOpts { emit_asm: true, symbols: true, opt_level: 1 });
    assert_eq!(plain, full);
}
