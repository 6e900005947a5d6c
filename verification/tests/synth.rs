use dispatch_bench::config::{CaseConfig, DispatchStrategy, GenOpts};
use dispatch_bench::program::TEST_LOOPS;
use dispatch_bench::synth::{
    gen_case, gen_ctor, gen_dynamic, gen_static, gen_type, inline_str, write_calls, write_fn_dynamic,
    write_fn_static, write_instance, write_main, write_preamble, write_timing, write_type,
};

fn plain() -> GenOpts {
    GenOpts { no_inline: false, no_dedup: false, predictable: false }
}

fn case(num_types: u32, num_fns: u32, num_calls: u32) -> CaseConfig {
    CaseConfig { num_types, num_fns, num_calls }
}

fn lines_with(text: &str, prefix: &str) -> Vec<String> {
    text.lines().filter(|line| line.starts_with(prefix)).map(|line| line.to_string()).collect()
}

fn calls_of(text: &str) -> Vec<String> {
    text.lines()
        .filter(|line| line.starts_with("        do_io_f"))
        .map(|line| line.trim().to_string())
        .collect()
}

const PREAMBLE_1_1: &str = "// types = 1, calls = 1\n\n\n#![feature(test)]\nextern crate test;\n\nuse test::black_box;\n\ntrait Io { fn do_io_m(&self); }\n\n";

#[test]
fn gen_type_pads_by_index() {
    assert_eq!(gen_type(0, 2), "([u8; 0], u16, [u8; 2], )");
    assert_eq!(gen_type(1, 2), "([u8; 1], u16, [u8; 1], )");
    assert_eq!(gen_type(7, 19), "([u8; 7], u16, [u8; 12], )");
    assert_eq!(gen_type(3, 3), "([u8; 3], u16, [u8; 0], )");
}

#[test]
fn gen_ctor_zeroes_every_field() {
    assert_eq!(gen_ctor(0, 2), "([0_u8; 0], 0_u16, [0_u8; 2], )");
    assert_eq!(gen_ctor(1, 2), "([0_u8; 1], 0_u16, [0_u8; 1], )");
    assert_eq!(gen_ctor(10, 110), "([0_u8; 10], 0_u16, [0_u8; 100], )");
}

#[test]
fn test_loops_is_fixed() {
    assert_eq!(TEST_LOOPS, 100_000);
}

#[test]
fn inline_str_follows_the_toggle() {
    assert_eq!(inline_str(&plain()), "");
    assert_eq!(inline_str(&GenOpts { no_inline: true, ..plain() }), "#[inline(never)]");
}

#[test]
fn write_type_appends_definition_and_implementation() {
    let mut f = String::from("x");
    write_type(&mut f, 1, 3, &plain());
    assert_eq!(
        f,
        "x\nstruct T1(([u8; 1], u16, [u8; 2], ));\nimpl Io for T1 {  fn do_io_m(&self) { black_box(self); } }\n\n"
    );
}

#[test]
fn write_type_with_all_toggles() {
    let mut f = String::new();
    write_type(&mut f, 4, 5, &GenOpts { no_inline: true, no_dedup: true, predictable: true });
    assert_eq!(
        f,
        "\nstruct T4(([u8; 4], u16, [u8; 1], ));\nimpl Io for T4 { #[inline(never)] fn do_io_m(&self) { black_box(self); black_box(&4); } }\n\n"
    );
}

#[test]
fn write_fn_static_takes_a_generic_parameter() {
    let mut f = String::new();
    write_fn_static(&mut f, 3, &GenOpts { no_inline: true, no_dedup: true, predictable: false });
    assert_eq!(
        f,
        "\n#[inline(never)]\nfn do_io_f3<T: Io>(v: &T) {\n    v.do_io_m();\n    black_box(&3);\n}\n\n"
    );
}

#[test]
fn write_fn_dynamic_takes_a_trait_object() {
    let mut f = String::new();
    write_fn_dynamic(&mut f, 3, &GenOpts { no_inline: true, no_dedup: true, predictable: false });
    assert_eq!(
        f,
        "\n#[inline(never)]\nfn do_io_f3(v: &dyn Io) {\n    v.do_io_m();\n    black_box(&3);\n}\n\n"
    );
}

#[test]
fn write_fn_without_toggles_leaves_the_directive_line_empty() {
    let mut f = String::from("// head\n");
    write_fn_static(&mut f, 12, &plain());
    assert_eq!(f, "// head\n\n\nfn do_io_f12<T: Io>(v: &T) {\n    v.do_io_m();\n}\n\n");
    let mut g = String::new();
    write_fn_dynamic(&mut g, 0, &plain());
    assert_eq!(g, "\n\nfn do_io_f0(v: &dyn Io) {\n    v.do_io_m();\n}\n\n");
}

#[test]
fn write_preamble_names_the_case() {
    let mut f = String::new();
    write_preamble(&mut f, &case(1, 9, 1));
    assert_eq!(f, PREAMBLE_1_1);
    let mut g = String::new();
    write_preamble(&mut g, &case(12, 3, 450));
    assert!(g.starts_with("// types = 12, calls = 450\n\n\n#![feature(test)]\n"));
}

#[test]
fn write_instance_makes_a_static_reference() {
    let mut f = String::new();
    write_instance(&mut f, 1, 2);
    assert_eq!(f, "    static V1: &T1 = &T1(([0_u8; 1], 0_u16, [0_u8; 1], ));\n");
}

#[test]
fn write_calls_repeats_the_call() {
    let mut f = String::new();
    write_calls(&mut f, 2, 5, 3);
    assert_eq!(f, "        do_io_f2(V5);\n        do_io_f2(V5);\n        do_io_f2(V5);\n");
    let mut g = String::new();
    write_calls(&mut g, 2, 5, 0);
    assert_eq!(g, "");
}

#[test]
fn write_timing_groups_by_function() {
    let mut f = String::new();
    write_timing(&mut f, &case(2, 2, 1), &plain());
    assert_eq!(
        f,
        "        do_io_f0(V0);\n        do_io_f0(V1);\n\n        do_io_f1(V0);\n        do_io_f1(V1);\n\n"
    );
}

#[test]
fn write_timing_groups_by_type_when_predictable() {
    let mut f = String::new();
    write_timing(&mut f, &case(2, 2, 1), &GenOpts { predictable: true, ..plain() });
    assert_eq!(
        f,
        "        do_io_f0(V0);\n        do_io_f1(V0);\n\n        do_io_f0(V1);\n        do_io_f1(V1);\n\n"
    );
}

#[test]
fn write_main_of_a_case_without_functions_is_empty() {
    let mut f = String::new();
    write_main(&mut f, &case(3, 0, 1), &plain());
    assert_eq!(f, "\nfn main() {\n}\n");
    let mut g = String::new();
    write_main(&mut g, &case(0, 3, 1), &plain());
    assert_eq!(g, "\nfn main() {\n}\n");
}

#[test]
fn static_program_of_the_smallest_case() {
    let text = gen_case(&case(1, 1, 1), DispatchStrategy::Static, &plain());
    let expected = String::from(PREAMBLE_1_1)
        + "\nstruct T0(([u8; 0], u16, [u8; 1], ));\n"
        + "impl Io for T0 {  fn do_io_m(&self) { black_box(self); } }\n\n"
        + "\n\nfn do_io_f0<T: Io>(v: &T) {\n    v.do_io_m();\n}\n\n"
        + "\nfn main() {\n"
        + "    static V0: &T0 = &T0(([0_u8; 0], 0_u16, [0_u8; 1], ));\n"
        + "\n    for _ in 0..100000 {\n"
        + "        do_io_f0(V0);\n\n"
        + "    }\n}\n";
    assert_eq!(text, expected);
}

#[test]
fn dynamic_program_with_every_toggle() {
    let opts = GenOpts { no_inline: true, no_dedup: true, predictable: true };
    let text = gen_case(&case(2, 1, 2), DispatchStrategy::Dynamic, &opts);
    let expected = String::from("// types = 2, calls = 2\n\n\n#![feature(test)]\nextern crate test;\n\nuse test::black_box;\n\ntrait Io { fn do_io_m(&self); }\n\n")
        + "\nstruct T0(([u8; 0], u16, [u8; 2], ));\n"
        + "impl Io for T0 { #[inline(never)] fn do_io_m(&self) { black_box(self); black_box(&0); } }\n\n"
        + "\nstruct T1(([u8; 1], u16, [u8; 1], ));\n"
        + "impl Io for T1 { #[inline(never)] fn do_io_m(&self) { black_box(self); black_box(&1); } }\n\n"
        + "\n#[inline(never)]\nfn do_io_f0(v: &dyn Io) {\n    v.do_io_m();\n    black_box(&0);\n}\n\n"
        + "\nfn main() {\n"
        + "    static V0: &T0 = &T0(([0_u8; 0], 0_u16, [0_u8; 2], ));\n"
        + "    static V1: &T1 = &T1(([0_u8; 1], 0_u16, [0_u8; 1], ));\n"
        + "\n    for _ in 0..100000 {\n"
        + "        do_io_f0(V0);\n        do_io_f0(V0);\n\n"
        + "        do_io_f0(V1);\n        do_io_f0(V1);\n\n"
        + "    }\n}\n";
    assert_eq!(text, expected);
}

#[test]
fn gen_static_and_gen_dynamic_pick_the_strategy() {
    let config = case(3, 2, 2);
    let opts = GenOpts { no_inline: true, no_dedup: false, predictable: false };
    assert_eq!(gen_static(&config, &opts), gen_case(&config, DispatchStrategy::Static, &opts));
    assert_eq!(gen_dynamic(&config, &opts), gen_case(&config, DispatchStrategy::Dynamic, &opts));
    assert_ne!(gen_static(&config, &opts), gen_dynamic(&config, &opts));
}

#[test]
fn synthesis_is_deterministic() {
    let config = case(5, 4, 3);
    for strategy in [DispatchStrategy::Static, DispatchStrategy::Dynamic] {
        for no_inline in [false, true] {
            let opts = GenOpts { no_inline, no_dedup: true, predictable: false };
            let first = gen_case(&config, strategy, &opts);
            let second = gen_case(&config, strategy, &opts);
            assert_eq!(first.as_bytes(), second.as_bytes());
        }
    }
}

#[test]
fn declares_each_type_once() {
    for strategy in [DispatchStrategy::Static, DispatchStrategy::Dynamic] {
        let text = gen_case(&case(13, 2, 1), strategy, &plain());
        let structs = lines_with(&text, "struct T");
        let impls = lines_with(&text, "impl Io for T");
        assert_eq!(structs.len(), 13);
        assert_eq!(impls.len(), 13);
        for num in 0..13 {
            assert!(structs[num].starts_with(&format!("struct T{}(", num)));
            assert!(impls[num].starts_with(&format!("impl Io for T{} ", num)));
        }
        let mut distinct = structs.clone();
        distinct.sort();
        distinct.dedup();
        assert_eq!(distinct.len(), 13);
    }
}

#[test]
fn declares_each_wrapper_once() {
    let text = gen_case(&case(2, 11, 1), DispatchStrategy::Static, &plain());
    let wrappers = lines_with(&text, "fn do_io_f");
    assert_eq!(wrappers.len(), 11);
    for num in 0..11 {
        assert_eq!(wrappers[num], format!("fn do_io_f{}<T: Io>(v: &T) {{", num));
    }
    let text = gen_case(&case(2, 11, 1), DispatchStrategy::Dynamic, &plain());
    let wrappers = lines_with(&text, "fn do_io_f");
    assert_eq!(wrappers.len(), 11);
    for num in 0..11 {
        assert_eq!(wrappers[num], format!("fn do_io_f{}(v: &dyn Io) {{", num));
    }
}

#[test]
fn variants_differ_only_in_wrapper_signatures() {
    let config = case(4, 3, 2);
    let opts = GenOpts { no_inline: true, no_dedup: true, predictable: false };
    let fixed = gen_static(&config, &opts);
    let dynamic = gen_dynamic(&config, &opts);
    let left: Vec<&str> = fixed.lines().collect();
    let right: Vec<&str> = dynamic.lines().collect();
    assert_eq!(left.len(), right.len());
    let mut differing = 0;
    for (a, b) in left.iter().zip(right.iter()) {
        if a != b {
            differing += 1;
            assert!(a.starts_with("fn do_io_f") && a.ends_with("<T: Io>(v: &T) {"));
            assert!(b.starts_with("fn do_io_f") && b.ends_with("(v: &dyn Io) {"));
        }
    }
    assert_eq!(differing, 3);
    assert_eq!(lines_with(&fixed, "struct T"), lines_with(&dynamic, "struct T"));
    assert_eq!(lines_with(&fixed, "impl Io"), lines_with(&dynamic, "impl Io"));
    assert_eq!(lines_with(&fixed, "    static V"), lines_with(&dynamic, "    static V"));
}

#[test]
fn no_inline_marks_every_method_and_wrapper() {
    let config = case(3, 5, 1);
    for strategy in [DispatchStrategy::Static, DispatchStrategy::Dynamic] {
        let marked = gen_case(&config, strategy, &GenOpts { no_inline: true, ..plain() });
        assert_eq!(marked.matches("#[inline(never)]").count(), 3 + 5);
        for line in lines_with(&marked, "impl Io for T") {
            assert!(line.contains("#[inline(never)] fn do_io_m"));
        }
        let lines: Vec<&str> = marked.lines().collect();
        for (at, line) in lines.iter().enumerate() {
            if line.starts_with("fn do_io_f") {
                assert_eq!(lines[at - 1], "#[inline(never)]");
            }
        }
        let free = gen_case(&config, strategy, &plain());
        assert_eq!(free.matches("#[inline(never)]").count(), 0);
        assert_eq!(free.matches("inline").count(), 0);
    }
}

#[test]
fn no_dedup_passes_every_index_to_the_sink() {
    let config = case(2, 2, 1);
    let with = gen_static(&config, &GenOpts { no_dedup: true, ..plain() });
    assert_eq!(with.matches("black_box(&0);").count(), 2);
    assert_eq!(with.matches("black_box(&1);").count(), 2);
    let without = gen_static(&config, &plain());
    assert_eq!(without.matches("black_box(&").count(), 0);
    assert_eq!(without.matches("black_box(self);").count(), 2);
}

#[test]
fn unpredictable_order_is_function_major() {
    let text = gen_static(&case(2, 2, 1), &plain());
    assert_eq!(
        calls_of(&text),
        vec!["do_io_f0(V0);", "do_io_f0(V1);", "do_io_f1(V0);", "do_io_f1(V1);"]
    );
}

#[test]
fn predictable_order_is_type_major() {
    let text = gen_static(&case(2, 2, 1), &GenOpts { predictable: true, ..plain() });
    assert_eq!(
        calls_of(&text),
        vec!["do_io_f0(V0);", "do_io_f1(V0);", "do_io_f0(V1);", "do_io_f1(V1);"]
    );
}

#[test]
fn order_with_repeated_calls() {
    let text = gen_dynamic(&case(2, 3, 2), &plain());
    let calls = calls_of(&text);
    assert_eq!(calls.len(), 2 * 3 * 2);
    for fn_num in 0..3 {
        for type_num in 0..2 {
            for call in 0..2 {
                let at = fn_num * (2 * 2) + type_num * 2 + call;
                assert_eq!(calls[at], format!("do_io_f{}(V{});", fn_num, type_num));
            }
        }
    }
    let text = gen_dynamic(&case(2, 3, 2), &GenOpts { predictable: true, ..plain() });
    let calls = calls_of(&text);
    for type_num in 0..2 {
        for fn_num in 0..3 {
            for call in 0..2 {
                let at = type_num * (3 * 2) + fn_num * 2 + call;
                assert_eq!(calls[at], format!("do_io_f{}(V{});", fn_num, type_num));
            }
        }
    }
}

#[test]
fn call_places_in_the_timing_loop() {
    let mut body = String::new();
    write_timing(&mut body, &case(3, 2, 2), &plain());
    let lines: Vec<&str> = body.lines().collect();
    let height = 3 * 2 + 1;
    assert_eq!(lines.len(), 2 * height);
    for fn_num in 0..2 {
        for type_num in 0..3 {
            for call in 0..2 {
                let at = fn_num * height + type_num * 2 + call;
                assert_eq!(lines[at], format!("        do_io_f{}(V{});", fn_num, type_num));
            }
        }
        assert_eq!(lines[(fn_num + 1) * height - 1], "");
    }
}

#[test]
fn zero_types_gives_an_empty_entry_point() {
    for strategy in [DispatchStrategy::Static, DispatchStrategy::Dynamic] {
        let text = gen_case(&case(0, 2, 3), strategy, &plain());
        assert!(text.ends_with("\nfn main() {\n}\n"));
        assert_eq!(lines_with(&text, "struct T").len(), 0);
        assert_eq!(lines_with(&text, "fn do_io_f").len(), 2);
        assert_eq!(calls_of(&text).len(), 0);
    }
}

#[test]
fn zero_functions_gives_an_empty_entry_point() {
    let text = gen_static(&case(2, 0, 3), &plain());
    assert!(text.ends_with("\nfn main() {\n}\n"));
    assert_eq!(lines_with(&text, "struct T").len(), 2);
    assert_eq!(lines_with(&text, "fn do_io_f").len(), 0);
    assert_eq!(lines_with(&text, "    static V").len(), 0);
}

#[test]
fn all_axes_zero_gives_preamble_and_entry_point_only() {
    let text = gen_dynamic(&case(0, 0, 0), &plain());
    assert_eq!(
        text,
        "// types = 0, calls = 0\n\n\n#![feature(test)]\nextern crate test;\n\nuse test::black_box;\n\ntrait Io { fn do_io_m(&self); }\n\n\nfn main() {\n}\n"
    );
}

#[test]
fn zero_calls_gives_an_empty_loop_body() {
    let text = gen_static(&case(2, 2, 0), &plain());
    assert_eq!(calls_of(&text).len(), 0);
    assert!(text.ends_with("\n    for _ in 0..100000 {\n\n\n    }\n}\n"));
    assert_eq!(lines_with(&text, "    static V").len(), 2);
}

#[test]
fn large_indices_are_written_in_full() {
    let mut f = String::new();
    write_fn_static(&mut f, 4_000_000_000, &GenOpts { no_dedup: true, ..plain() });
    assert!(f.contains("fn do_io_f4000000000<T: Io>(v: &T) {"));
    assert!(f.contains("    black_box(&4000000000);"));
    assert_eq!(gen_type(0, u32::MAX), "([u8; 0], u16, [u8; 4294967295], )");
}
