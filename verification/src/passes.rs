//! Names of Binaryen's optimization passes, and the checks made on them before a run.

use vstd::prelude::*;
use vstd::string::StrSliceExecFns;
use vstd::utf8::encode_utf8;

use crate::cstring::{c_bytes, c_string};

verus! {

/// The names of the optimization passes that Binaryen runs.
pub open spec fn is_pass_name(s: Seq<char>) -> bool {
    ||| s == "alignment-lowering"@
    ||| s == "asyncify"@
    ||| s == "avoid-reinterprets"@
    ||| s == "dae"@
    ||| s == "dae-optimizing"@
    ||| s == "coalesce-locals"@
    ||| s == "coalesce-locals-learning"@
    ||| s == "code-pushing"@
    ||| s == "code-folding"@
    ||| s == "const-hoisting"@
    ||| s == "dce"@
    ||| s == "directize"@
    ||| s == "dfo"@
    ||| s == "duplicate-function-elimination"@
    ||| s == "extract-function"@
    ||| s == "emit-target-features"@
    ||| s == "flatten"@
    ||| s == "fpcast-emu"@
    ||| s == "func-metrics"@
    ||| s == "generate-stack-ir"@
    ||| s == "inline-main"@
    ||| s == "inlining"@
    ||| s == "inlining-optimizing"@
    ||| s == "legalize-js-interface"@
    ||| s == "legalize-js-interface-minimally"@
    ||| s == "local-cse"@
    ||| s == "log-execution"@
    ||| s == "i64-to-i32-lowering"@
    ||| s == "instrument-locals"@
    ||| s == "instrument-memory"@
    ||| s == "licm"@
    ||| s == "limit-segments"@
    ||| s == "memory-packing"@
    ||| s == "merge-blocks"@
    ||| s == "merge-locals"@
    ||| s == "metrics"@
    ||| s == "minify-imports"@
    ||| s == "minify-imports-and-exports"@
    ||| s == "mod-asyncify-always-and-only-unwind"@
    ||| s == "mod-asyncify-never-unwind"@
    ||| s == "nm"@
    ||| s == "name-types"@
    ||| s == "once-reduction"@
    ||| s == "optimize-added-constants"@
    ||| s == "optimize-added-constants-propagate"@
    ||| s == "optimize-instructions"@
    ||| s == "optimize-stack-ir"@
    ||| s == "pick-load-signs"@
    ||| s == "poppify"@
    ||| s == "post-emscripten"@
    ||| s == "optimize-for-js"@
    ||| s == "precompute"@
    ||| s == "precompute-propagate"@
    ||| s == "print"@
    ||| s == "print-minified"@
    ||| s == "print-features"@
    ||| s == "print-full"@
    ||| s == "print-call-graph"@
    ||| s == "print-function-map"@
    ||| s == "print-stack-ir"@
    ||| s == "symbolmap"@
    ||| s == "remove-non-js-ops"@
    ||| s == "remove-imports"@
    ||| s == "remove-memory"@
    ||| s == "remove-unused-brs"@
    ||| s == "remove-unused-module-elements"@
    ||| s == "remove-unused-nonfunction-module-elements"@
    ||| s == "remove-unused-names"@
    ||| s == "reorder-functions"@
    ||| s == "reorder-locals"@
    ||| s == "rereloop"@
    ||| s == "rse"@
    ||| s == "roundtrip"@
    ||| s == "safe-heap"@
    ||| s == "set-globals"@
    ||| s == "signature-pruning"@
    ||| s == "signature-refining"@
    ||| s == "simplify-globals"@
    ||| s == "simplify-globals-optimizing"@
    ||| s == "simplify-locals"@
    ||| s == "simplify-locals-nonesting"@
    ||| s == "simplify-locals-notee"@
    ||| s == "simplify-locals-nostructure"@
    ||| s == "simplify-locals-notee-nostructure"@
    ||| s == "souperify"@
    ||| s == "souperify-single-use"@
    ||| s == "spill-pointers"@
    ||| s == "ssa"@
    ||| s == "ssa-nomerge"@
    ||| s == "strip"@
    ||| s == "strip-debug"@
    ||| s == "strip-dwarf"@
    ||| s == "strip-producers"@
    ||| s == "strip-target-features"@
    ||| s == "trap-mode-clamp"@
    ||| s == "trap-mode-js"@
    ||| s == "untee"@
    ||| s == "vacuum"@
}

/// Every character is ASCII and none is NUL.
pub open spec fn nul_free_ascii(s: Seq<char>) -> bool {
    forall|i: int| 0 <= i < s.len() ==> '\u{1}' <= #[trigger] s[i] <= '\u{7f}'
}

/// Whether two string slices hold the same characters.
pub fn str_eq(a: &str, b: &str) -> (r: bool)
    ensures
        r == (a@ == b@),
{
    let n = a.unicode_len();
    if n != b.unicode_len() {
        return false;
    }
    let mut i: usize = 0;
    while i < n
        invariant
            n == a@.len(),
            n == b@.len(),
            i <= n,
            forall|j: int| 0 <= j < i ==> a@[j] == b@[j],
        decreases n - i,
    {
        if a.get_char(i) != b.get_char(i) {
            return false;
        }
        i = i + 1;
    }
    assert(a@ =~= b@);
    true
}

/// Whether `pass` names an optimization pass of Binaryen.
pub fn is_valid_pass(pass: &str) -> (r: bool)
    ensures
        r == is_pass_name(pass@),
{
        str_eq(pass, "alignment-lowering") ||
        str_eq(pass, "asyncify") ||
        str_eq(pass, "avoid-reinterprets") ||
        str_eq(pass, "dae") ||
        str_eq(pass, "dae-optimizing") ||
        str_eq(pass, "coalesce-locals") ||
        str_eq(pass, "coalesce-locals-learning") ||
        str_eq(pass, "code-pushing") ||
        str_eq(pass, "code-folding") ||
        str_eq(pass, "const-hoisting") ||
        str_eq(pass, "dce") ||
        str_eq(pass, "directize") ||
        str_eq(pass, "dfo") ||
        str_eq(pass, "duplicate-function-elimination") ||
        str_eq(pass, "extract-function") ||
        str_eq(pass, "emit-target-features") ||
        str_eq(pass, "flatten") ||
        str_eq(pass, "fpcast-emu") ||
        str_eq(pass, "func-metrics") ||
        str_eq(pass, "generate-stack-ir") ||
        str_eq(pass, "inline-main") ||
        str_eq(pass, "inlining") ||
        str_eq(pass, "inlining-optimizing") ||
        str_eq(pass, "legalize-js-interface") ||
        str_eq(pass, "legalize-js-interface-minimally") ||
        str_eq(pass, "local-cse") ||
        str_eq(pass, "log-execution") ||
        str_eq(pass, "i64-to-i32-lowering") ||
        str_eq(pass, "instrument-locals") ||
        str_eq(pass, "instrument-memory") ||
        str_eq(pass, "licm") ||
        str_eq(pass, "limit-segments") ||
        str_eq(pass, "memory-packing") ||
        str_eq(pass, "merge-blocks") ||
        str_eq(pass, "merge-locals") ||
        str_eq(pass, "metrics") ||
        str_eq(pass, "minify-imports") ||
        str_eq(pass, "minify-imports-and-exports") ||
        str_eq(pass, "mod-asyncify-always-and-only-unwind") ||
        str_eq(pass, "mod-asyncify-never-unwind") ||
        str_eq(pass, "nm") ||
        str_eq(pass, "name-types") ||
        str_eq(pass, "once-reduction") ||
        str_eq(pass, "optimize-added-constants") ||
        str_eq(pass, "optimize-added-constants-propagate") ||
        str_eq(pass, "optimize-instructions") ||
        str_eq(pass, "optimize-stack-ir") ||
        str_eq(pass, "pick-load-signs") ||
        str_eq(pass, "poppify") ||
        str_eq(pass, "post-emscripten") ||
        str_eq(pass, "optimize-for-js") ||
        str_eq(pass, "precompute") ||
        str_eq(pass, "precompute-propagate") ||
        str_eq(pass, "print") ||
        str_eq(pass, "print-minified") ||
        str_eq(pass, "print-features") ||
        str_eq(pass, "print-full") ||
        str_eq(pass, "print-call-graph") ||
        str_eq(pass, "print-function-map") ||
        str_eq(pass, "print-stack-ir") ||
        str_eq(pass, "symbolmap") ||
        str_eq(pass, "remove-non-js-ops") ||
        str_eq(pass, "remove-imports") ||
        str_eq(pass, "remove-memory") ||
        str_eq(pass, "remove-unused-brs") ||
        str_eq(pass, "remove-unused-module-elements") ||
        str_eq(pass, "remove-unused-nonfunction-module-elements") ||
        str_eq(pass, "remove-unused-names") ||
        str_eq(pass, "reorder-functions") ||
        str_eq(pass, "reorder-locals") ||
        str_eq(pass, "rereloop") ||
        str_eq(pass, "rse") ||
        str_eq(pass, "roundtrip") ||
        str_eq(pass, "safe-heap") ||
        str_eq(pass, "set-globals") ||
        str_eq(pass, "signature-pruning") ||
        str_eq(pass, "signature-refining") ||
        str_eq(pass, "simplify-globals") ||
        str_eq(pass, "simplify-globals-optimizing") ||
        str_eq(pass, "simplify-locals") ||
        str_eq(pass, "simplify-locals-nonesting") ||
        str_eq(pass, "simplify-locals-notee") ||
        str_eq(pass, "simplify-locals-nostructure") ||
        str_eq(pass, "simplify-locals-notee-nostructure") ||
        str_eq(pass, "souperify") ||
        str_eq(pass, "souperify-single-use") ||
        str_eq(pass, "spill-pointers") ||
        str_eq(pass, "ssa") ||
        str_eq(pass, "ssa-nomerge") ||
        str_eq(pass, "strip") ||
        str_eq(pass, "strip-debug") ||
        str_eq(pass, "strip-dwarf") ||
        str_eq(pass, "strip-producers") ||
        str_eq(pass, "strip-target-features") ||
        str_eq(pass, "trap-mode-clamp") ||
        str_eq(pass, "trap-mode-js") ||
        str_eq(pass, "untee") ||
        str_eq(pass, "vacuum")
}

/// The name of every optimization pass is made of ASCII characters other than NUL.
pub proof fn lemma_pass_names_nul_free(s: Seq<char>)
    requires
        is_pass_name(s),
    ensures
        nul_free_ascii(s),
{
    reveal_strlit("alignment-lowering");
    reveal_strlit("asyncify");
    reveal_strlit("avoid-reinterprets");
    reveal_strlit("dae");
    reveal_strlit("dae-optimizing");
    reveal_strlit("coalesce-locals");
    reveal_strlit("coalesce-locals-learning");
    reveal_strlit("code-pushing");
    reveal_strlit("code-folding");
    reveal_strlit("const-hoisting");
    reveal_strlit("dce");
    reveal_strlit("directize");
    reveal_strlit("dfo");
    reveal_strlit("duplicate-function-elimination");
    reveal_strlit("extract-function");
    reveal_strlit("emit-target-features");
    reveal_strlit("flatten");
    reveal_strlit("fpcast-emu");
    reveal_strlit("func-metrics");
    reveal_strlit("generate-stack-ir");
    reveal_strlit("inline-main");
    reveal_strlit("inlining");
    reveal_strlit("inlining-optimizing");
    reveal_strlit("legalize-js-interface");
    reveal_strlit("legalize-js-interface-minimally");
    reveal_strlit("local-cse");
    reveal_strlit("log-execution");
    reveal_strlit("i64-to-i32-lowering");
    reveal_strlit("instrument-locals");
    reveal_strlit("instrument-memory");
    reveal_strlit("licm");
    reveal_strlit("limit-segments");
    reveal_strlit("memory-packing");
    reveal_strlit("merge-blocks");
    reveal_strlit("merge-locals");
    reveal_strlit("metrics");
    reveal_strlit("minify-imports");
    reveal_strlit("minify-imports-and-exports");
    reveal_strlit("mod-asyncify-always-and-only-unwind");
    reveal_strlit("mod-asyncify-never-unwind");
    reveal_strlit("nm");
    reveal_strlit("name-types");
    reveal_strlit("once-reduction");
    reveal_strlit("optimize-added-constants");
    reveal_strlit("optimize-added-constants-propagate");
    reveal_strlit("optimize-instructions");
    reveal_strlit("optimize-stack-ir");
    reveal_strlit("pick-load-signs");
    reveal_strlit("poppify");
    reveal_strlit("post-emscripten");
    reveal_strlit("optimize-for-js");
    reveal_strlit("precompute");
    reveal_strlit("precompute-propagate");
    reveal_strlit("print");
    reveal_strlit("print-minified");
    reveal_strlit("print-features");
    reveal_strlit("print-full");
    reveal_strlit("print-call-graph");
    reveal_strlit("print-function-map");
    reveal_strlit("print-stack-ir");
    reveal_strlit("symbolmap");
    reveal_strlit("remove-non-js-ops");
    reveal_strlit("remove-imports");
    reveal_strlit("remove-memory");
    reveal_strlit("remove-unused-brs");
    reveal_strlit("remove-unused-module-elements");
    reveal_strlit("remove-unused-nonfunction-module-elements");
    reveal_strlit("remove-unused-names");
    reveal_strlit("reorder-functions");
    reveal_strlit("reorder-locals");
    reveal_strlit("rereloop");
    reveal_strlit("rse");
    reveal_strlit("roundtrip");
    reveal_strlit("safe-heap");
    reveal_strlit("set-globals");
    reveal_strlit("signature-pruning");
    reveal_strlit("signature-refining");
    reveal_strlit("simplify-globals");
    reveal_strlit("simplify-globals-optimizing");
    reveal_strlit("simplify-locals");
    reveal_strlit("simplify-locals-nonesting");
    reveal_strlit("simplify-locals-notee");
    reveal_strlit("simplify-locals-nostructure");
    reveal_strlit("simplify-locals-notee-nostructure");
    reveal_strlit("souperify");
    reveal_strlit("souperify-single-use");
    reveal_strlit("spill-pointers");
    reveal_strlit("ssa");
    reveal_strlit("ssa-nomerge");
    reveal_strlit("strip");
    reveal_strlit("strip-debug");
    reveal_strlit("strip-dwarf");
    reveal_strlit("strip-producers");
    reveal_strlit("strip-target-features");
    reveal_strlit("trap-mode-clamp");
    reveal_strlit("trap-mode-js");
    reveal_strlit("untee");
    reveal_strlit("vacuum");
}

/// The bytes of a pass name hold no NUL, so its C string can always be made.
pub proof fn lemma_pass_name_bytes_nul_free(s: Seq<char>)
    requires
        is_pass_name(s),
    ensures
        !encode_utf8(s).contains(0u8),
{
    lemma_pass_names_nul_free(s);
    assert(vstd::utf8::is_ascii_chars(s));
    vstd::utf8::is_ascii_chars_encode_utf8(s);
    if encode_utf8(s).contains(0u8) {
        let k = choose|k: int| 0 <= k < encode_utf8(s).len() && encode_utf8(s)[k] == 0u8;
        assert(s[k] as u8 == 0u8);
        assert('\u{1}' <= s[k] <= '\u{7f}');
    }
}

/// Whether some name in `passes` is not the name of an optimization pass.
pub open spec fn has_invalid_pass(passes: Seq<String>) -> bool {
    exists|i: int| 0 <= i < passes.len() && !is_pass_name(#[trigger] passes[i]@)
}

/// The names accepted as optimization passes are exactly the names of Binaryen's
/// passes, listed here one by one: any other string, a misspelling among them, is refused.
pub proof fn law_pass_names_are_binaryens(s: Seq<char>)
    ensures
        is_pass_name(s) <==> set![
        "alignment-lowering"@,
        "asyncify"@,
        "avoid-reinterprets"@,
        "dae"@,
        "dae-optimizing"@,
        "coalesce-locals"@,
        "coalesce-locals-learning"@,
        "code-pushing"@,
        "code-folding"@,
        "const-hoisting"@,
        "dce"@,
        "directize"@,
        "dfo"@,
        "duplicate-function-elimination"@,
        "extract-function"@,
        "emit-target-features"@,
        "flatten"@,
        "fpcast-emu"@,
        "func-metrics"@,
        "generate-stack-ir"@,
        "inline-main"@,
        "inlining"@,
        "inlining-optimizing"@,
        "legalize-js-interface"@,
        "legalize-js-interface-minimally"@,
        "local-cse"@,
        "log-execution"@,
        "i64-to-i32-lowering"@,
        "instrument-locals"@,
        "instrument-memory"@,
        "licm"@,
        "limit-segments"@,
        "memory-packing"@,
        "merge-blocks"@,
        "merge-locals"@,
        "metrics"@,
        "minify-imports"@,
        "minify-imports-and-exports"@,
        "mod-asyncify-always-and-only-unwind"@,
        "mod-asyncify-never-unwind"@,
        "nm"@,
        "name-types"@,
        "once-reduction"@,
        "optimize-added-constants"@,
        "optimize-added-constants-propagate"@,
        "optimize-instructions"@,
        "optimize-stack-ir"@,
        "pick-load-signs"@,
        "poppify"@,
        "post-emscripten"@,
        "optimize-for-js"@,
        "precompute"@,
        "precompute-propagate"@,
        "print"@,
        "print-minified"@,
        "print-features"@,
        "print-full"@,
        "print-call-graph"@,
        "print-function-map"@,
        "print-stack-ir"@,
        "symbolmap"@,
        "remove-non-js-ops"@,
        "remove-imports"@,
        "remove-memory"@,
        "remove-unused-brs"@,
        "remove-unused-module-elements"@,
        "remove-unused-nonfunction-module-elements"@,
        "remove-unused-names"@,
        "reorder-functions"@,
        "reorder-locals"@,
        "rereloop"@,
        "rse"@,
        "roundtrip"@,
        "safe-heap"@,
        "set-globals"@,
        "signature-pruning"@,
        "signature-refining"@,
        "simplify-globals"@,
        "simplify-globals-optimizing"@,
        "simplify-locals"@,
        "simplify-locals-nonesting"@,
        "simplify-locals-notee"@,
        "simplify-locals-nostructure"@,
        "simplify-locals-notee-nostructure"@,
        "souperify"@,
        "souperify-single-use"@,
        "spill-pointers"@,
        "ssa"@,
        "ssa-nomerge"@,
        "strip"@,
        "strip-debug"@,
        "strip-dwarf"@,
        "strip-producers"@,
        "strip-target-features"@,
        "trap-mode-clamp"@,
        "trap-mode-js"@,
        "untee"@,
        "vacuum"@
    ].contains(s),
{
}

/// A list of passes is refused exactly when one of its names, at any position, first
/// or last or between, is not the name of a pass.
pub proof fn law_refused_iff_some_name_is_not_a_pass(passes: Seq<String>)
    ensures
        has_invalid_pass(passes) <==> exists|i: int|
            0 <= i < passes.len() && !is_pass_name(#[trigger] passes[i]@),
        !has_invalid_pass(passes) <==> forall|i: int|
            0 <= i < passes.len() ==> is_pass_name(#[trigger] passes[i]@),
{
}

/// One name that is not a pass makes the whole list refused, wherever it stands and
/// whatever stands before and after it.
pub proof fn law_one_bad_name_refuses_the_list(front: Seq<String>, bad: String, back: Seq<String>)
    requires
        !is_pass_name(bad@),
    ensures
        has_invalid_pass(front.push(bad) + back),
        has_invalid_pass(front.push(bad)),
{
    let whole = front.push(bad) + back;
    assert(whole[front.len() as int] == bad);
    assert(front.push(bad)[front.len() as int] == bad);
}

/// Adding names to a refused list, before or after it, leaves it refused; a list of
/// accepted names joined to another accepted list stays accepted.
pub proof fn law_refusal_is_kept_by_joining(a: Seq<String>, b: Seq<String>)
    ensures
        has_invalid_pass(a) ==> has_invalid_pass(a + b) && has_invalid_pass(b + a),
        !has_invalid_pass(a) && !has_invalid_pass(b) ==> !has_invalid_pass(a + b),
{
    if has_invalid_pass(a) {
        let i = choose|i: int| 0 <= i < a.len() && !is_pass_name(#[trigger] a[i]@);
        assert((a + b)[i] == a[i]);
        assert((b + a)[b.len() + i] == a[i]);
    }
    if !has_invalid_pass(a) && !has_invalid_pass(b) {
        assert forall|i: int| 0 <= i < (a + b).len() implies is_pass_name(#[trigger] (a + b)[i]@) by {
            if i < a.len() {
                assert((a + b)[i] == a[i]);
            } else {
                assert((a + b)[i] == b[i - a.len()]);
            }
        }
    }
}

/// The C strings of `passes`, in order, where every one names an optimization pass;
/// an error, decided before anything is run, where one does not.
pub fn pass_c_strings(passes: &Vec<String>) -> (r: Result<Vec<Vec<u8>>, ()>)
    ensures
        r is Err <==> has_invalid_pass(passes@),
        r is Ok <==> forall|i: int| 0 <= i < passes@.len() ==> is_pass_name(#[trigger] passes@[i]@),
        r matches Ok(v) ==> v@.len() == passes@.len() && forall|i: int|
            0 <= i < v@.len() ==> (#[trigger] v@[i])@ == c_bytes(encode_utf8(passes@[i]@)),
        r matches Ok(v) ==> forall|i: int|
            0 <= i < v@.len() ==> (#[trigger] v@[i])@.drop_last() == encode_utf8(passes@[i]@)
                && v@[i]@.last() == 0u8,
{
    let mut out: Vec<Vec<u8>> = Vec::new();
    let n = passes.len();
    let mut i: usize = 0;
    while i < n
        invariant
            n == passes@.len(),
            i <= n,
            out@.len() == i,
            forall|j: int| 0 <= j < i ==> is_pass_name(#[trigger] passes@[j]@),
            forall|j: int|
                0 <= j < i ==> (#[trigger] out@[j])@ == c_bytes(encode_utf8(passes@[j]@)),
        decreases n - i,
    {
        let pass = passes[i].as_str();
        if !is_valid_pass(pass) {
            assert(!is_pass_name(passes@[i as int]@));
            return Err(());
        }
        proof {
            lemma_pass_name_bytes_nul_free(pass@);
        }
        match c_string(pass) {
            Ok(c) => {
                out.push(c);
            },
            Err(_) => {
                // `pass` names a pass, so it holds no NUL byte.
                proof {
                    assert(false);
                }
                return Err(());
            },
        }
        i = i + 1;
    }
    Ok(out)
}

} // verus!
