use binaryen::cstring::{c_string, nul_terminated};
use binaryen::passes::{is_valid_pass, pass_c_strings, str_eq};

#[test]
fn optimization_pass_list() {
    let pass_list = [
        "alignment-lowering",
        "asyncify",
        "avoid-reinterprets",
        "dae",
        "dae-optimizing",
        "coalesce-locals",
        "coalesce-locals-learning",
        "code-pushing",
        "code-folding",
        "const-hoisting",
        "dce",
        "directize",
        "dfo",
        "duplicate-function-elimination",
        "extract-function",
        "emit-target-features",
        "flatten",
        "fpcast-emu",
        "func-metrics",
        "generate-stack-ir",
        "inline-main",
        "inlining",
        "inlining-optimizing",
        "legalize-js-interface",
        "legalize-js-interface-minimally",
        "local-cse",
        "log-execution",
        "i64-to-i32-lowering",
        "instrument-locals",
        "instrument-memory",
        "licm",
        "limit-segments",
        "memory-packing",
        "merge-blocks",
        "merge-locals",
        "metrics",
        "minify-imports",
        "minify-imports-and-exports",
        "mod-asyncify-always-and-only-unwind",
        "mod-asyncify-never-unwind",
        "nm",
        "name-types",
        "once-reduction",
        "optimize-added-constants",
        "optimize-added-constants-propagate",
        "optimize-instructions",
        "optimize-stack-ir",
        "pick-load-signs",
        "poppify",
        "post-emscripten",
        "optimize-for-js",
        "precompute",
        "precompute-propagate",
        "print",
        "print-minified",
        "print-features",
        "print-full",
        "print-call-graph",
        "print-function-map",
        "print-stack-ir",
        "symbolmap",
        "remove-non-js-ops",
        "remove-imports",
        "remove-memory",
        "remove-unused-brs",
        "remove-unused-module-elements",
        "remove-unused-nonfunction-module-elements",
        "remove-unused-names",
        "reorder-functions",
        "reorder-locals",
        "rereloop",
        "rse",
        "roundtrip",
        "safe-heap",
        "set-globals",
        "signature-pruning",
        "signature-refining",
        "simplify-globals",
        "simplify-globals-optimizing",
        "simplify-locals",
        "simplify-locals-nonesting",
        "simplify-locals-notee",
        "simplify-locals-nostructure",
        "simplify-locals-notee-nostructure",
        "souperify",
        "souperify-single-use",
        "spill-pointers",
        "ssa",
        "ssa-nomerge",
        "strip",
        "strip-debug",
        "strip-dwarf",
        "strip-producers",
        "strip-target-features",
        "trap-mode-clamp",
        "trap-mode-js",
        "untee",
        "vacuum",
    ];
    for pass in pass_list.iter() {
        assert!(is_valid_pass(pass), "not a valid pass: {}", pass);
    }
}

#[test]
fn test_invalid_optimization_passes() {
    let passes = vec!["invalid".to_string()];
    assert!(pass_c_strings(&passes).is_err());
}

#[test]
fn valid_passes_give_their_c_strings_in_order() {
    let passes = vec!["vacuum".to_string(), "untee".to_string()];
    let c = pass_c_strings(&passes).expect("passes succeeded");
    assert_eq!(c, vec![b"vacuum\0".to_vec(), b"untee\0".to_vec()]);
}

#[test]
fn one_invalid_pass_rejects_the_run() {
    let passes = vec!["vacuum".to_string(), "vacuumm".to_string(), "untee".to_string()];
    assert!(pass_c_strings(&passes).is_err());
    let none: Vec<String> = vec![];
    assert_eq!(pass_c_strings(&none), Ok(vec![]));
}

#[test]
fn near_misses_are_not_passes() {
    assert!(!is_valid_pass(""));
    assert!(!is_valid_pass("Vacuum"));
    assert!(!is_valid_pass("vacuum "));
    assert!(!is_valid_pass("vacuum\0"));
    assert!(!is_valid_pass("dc"));
    assert!(is_valid_pass("dce"));
}

#[test]
fn str_eq_compares_characters() {
    assert!(str_eq("abc", "abc"));
    assert!(!str_eq("abc", "abd"));
    assert!(!str_eq("abc", "ab"));
    assert!(str_eq("", ""));
    assert!(str_eq("\u{e9}t\u{e9}", "\u{e9}t\u{e9}"));
}

#[test]
fn pass_names_make_c_strings() {
    for pass in ["vacuum", "dce", "i64-to-i32-lowering"].iter() {
        let c = c_string(pass).ok().unwrap();
        assert_eq!(c, nul_terminated(pass));
        assert_eq!(*c.last().unwrap(), 0u8);
    }
}
