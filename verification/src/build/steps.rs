//! The sources, flags and file names of the native build.

use crate::arch::arch_of;
use crate::arch::Arch;
use crate::build::words::capitals_are_made_small;
use crate::build::words::chars;
use crate::build::words::is_text;
use crate::build::words::lowered;
use crate::build::words::to_lower_text;
use crate::text::decimal;
use crate::text::decimals_read_back;
use crate::text::digit;
use crate::text::labelled;
use crate::text::number;
use crate::text::value_of;
use vstd::prelude::*;
use vstd::string::StringExecFns;

verus! {

/// The texts of `items`.
pub open spec fn str_texts(items: Seq<&str>) -> Seq<Seq<char>> {
    Seq::new(items.len(), |i: int| items[i]@)
}

/// Sources that every architecture compiles for decode.
pub open spec fn common_sources() -> Seq<Seq<char>> {
    seq![
        "csrc/smxx/decode/get_decoding_sched_meta/get_decoding_sched_meta.cu"@,
        "csrc/smxx/decode/combine/combine.cu"@,
    ]
}

/// Sources of the SM90 kernels.
pub open spec fn sm90_sources() -> Seq<Seq<char>> {
    seq![
        "csrc/sm90/prefill/sparse/fwd.cu"@,
        "csrc/sm90/prefill/sparse/instantiations/phase1_k512.cu"@,
        "csrc/sm90/prefill/sparse/instantiations/phase1_k512_topklen.cu"@,
        "csrc/sm90/prefill/sparse/instantiations/phase1_k576.cu"@,
        "csrc/sm90/prefill/sparse/instantiations/phase1_k576_topklen.cu"@,
        "csrc/sm90/decode/sparse_fp8/instantiations/model1_persistent_h64.cu"@,
        "csrc/sm90/decode/sparse_fp8/instantiations/model1_persistent_h128.cu"@,
        "csrc/sm90/decode/sparse_fp8/instantiations/v32_persistent_h64.cu"@,
        "csrc/sm90/decode/sparse_fp8/instantiations/v32_persistent_h128.cu"@,
    ]
}

/// Sources of the SM100 kernels.
pub open spec fn sm100_sources() -> Seq<Seq<char>> {
    seq![
        "csrc/sm100/prefill/sparse/fwd/head64/instantiations/phase1_k512.cu"@,
        "csrc/sm100/prefill/sparse/fwd/head64/instantiations/phase1_k576.cu"@,
        "csrc/sm100/prefill/sparse/fwd/head128/instantiations/phase1_k512.cu"@,
        "csrc/sm100/prefill/sparse/fwd/head128/instantiations/phase1_k576.cu"@,
        "csrc/sm100/prefill/sparse/fwd_for_small_topk/head128/instantiations/phase1_prefill_k512.cu"@,
        "csrc/sm100/decode/head64/instantiations/v32.cu"@,
        "csrc/sm100/decode/head64/instantiations/model1.cu"@,
        "csrc/sm100/prefill/sparse/fwd_for_small_topk/head128/instantiations/phase1_decode_k512.cu"@,
    ]
}

/// The FlashMLA sources that the build for `arch` compiles, relative to the FlashMLA root.
pub open spec fn sources(arch: Arch) -> Seq<Seq<char>> {
    common_sources() + (match arch {
        Arch::Sm90a => sm90_sources(),
        Arch::Sm100f => sm100_sources(),
    })
}

/// The FlashMLA sources that the build for `arch` compiles, relative to the FlashMLA root: those
/// that every architecture shares, then its own.
pub fn selected_sources(arch: Arch) -> (list: Vec<&'static str>)
    ensures
        str_texts(list@) == sources(arch),
{
    let list = match arch {
        Arch::Sm90a => vec![
            "csrc/smxx/decode/get_decoding_sched_meta/get_decoding_sched_meta.cu",
            "csrc/smxx/decode/combine/combine.cu",
            "csrc/sm90/prefill/sparse/fwd.cu",
            "csrc/sm90/prefill/sparse/instantiations/phase1_k512.cu",
            "csrc/sm90/prefill/sparse/instantiations/phase1_k512_topklen.cu",
            "csrc/sm90/prefill/sparse/instantiations/phase1_k576.cu",
            "csrc/sm90/prefill/sparse/instantiations/phase1_k576_topklen.cu",
            "csrc/sm90/decode/sparse_fp8/instantiations/model1_persistent_h64.cu",
            "csrc/sm90/decode/sparse_fp8/instantiations/model1_persistent_h128.cu",
            "csrc/sm90/decode/sparse_fp8/instantiations/v32_persistent_h64.cu",
            "csrc/sm90/decode/sparse_fp8/instantiations/v32_persistent_h128.cu",
        ],
        Arch::Sm100f => vec![
            "csrc/smxx/decode/get_decoding_sched_meta/get_decoding_sched_meta.cu",
            "csrc/smxx/decode/combine/combine.cu",
            "csrc/sm100/prefill/sparse/fwd/head64/instantiations/phase1_k512.cu",
            "csrc/sm100/prefill/sparse/fwd/head64/instantiations/phase1_k576.cu",
            "csrc/sm100/prefill/sparse/fwd/head128/instantiations/phase1_k512.cu",
            "csrc/sm100/prefill/sparse/fwd/head128/instantiations/phase1_k576.cu",
            "csrc/sm100/prefill/sparse/fwd_for_small_topk/head128/instantiations/phase1_prefill_k512.cu",
            "csrc/sm100/decode/head64/instantiations/v32.cu",
            "csrc/sm100/decode/head64/instantiations/model1.cu",
            "csrc/sm100/prefill/sparse/fwd_for_small_topk/head128/instantiations/phase1_decode_k512.cu",
        ],
    };
    assert(str_texts(list@) == sources(arch));
    list
}

/// The name of the build directory of `arch`.
pub open spec fn arch_name(arch: Arch) -> Seq<char> {
    match arch {
        Arch::Sm90a => "sm90a"@,
        Arch::Sm100f => "sm100f"@,
    }
}

/// The name of the build directory of `arch`.
pub fn name(arch: Arch) -> (name: &'static str)
    ensures
        name@ == arch_name(arch),
{
    match arch {
        Arch::Sm90a => "sm90a",
        Arch::Sm100f => "sm100f",
    }
}

/// The artifacts of different architectures go to different directories.
pub proof fn arch_names_are_distinct(a: Arch, b: Arch)
    requires
        a != b,
    ensures
        arch_name(a) != arch_name(b),
{
    reveal_strlit("sm90a");
    reveal_strlit("sm100f");
    assert("sm90a"@.len() == 5);
    assert("sm100f"@.len() == 6);
}

/// The `-gencode` value of `arch`.
pub open spec fn gencode(arch: Arch) -> Seq<char> {
    match arch {
        Arch::Sm90a => "arch=compute_90a,code=sm_90a"@,
        Arch::Sm100f => "arch=compute_100f,code=sm_100f"@,
    }
}

/// The flag that tells the sources their target.
pub open spec fn target_define(arch: Arch) -> Seq<char> {
    match arch {
        Arch::Sm90a => "-DFLASHMLA_TARGET_SM90=1"@,
        Arch::Sm100f => "-DFLASHMLA_TARGET_SM100=1"@,
    }
}

/// The compiler flags that every source is compiled with.
pub open spec fn common_flags() -> Seq<Seq<char>> {
    seq![
        "-O3"@,
        "-std=c++20"@,
        "-DNDEBUG"@,
        "-D_USE_MATH_DEFINES"@,
        "-Wno-deprecated-declarations"@,
        "-U__CUDA_NO_HALF_OPERATORS__"@,
        "-U__CUDA_NO_HALF_CONVERSIONS__"@,
        "-U__CUDA_NO_HALF2_OPERATORS__"@,
        "-U__CUDA_NO_BFLOAT16_CONVERSIONS__"@,
        "--expt-relaxed-constexpr"@,
        "--expt-extended-lambda"@,
        "--use_fast_math"@,
        "-lineinfo"@,
        "-Xcompiler=-fPIC"@,
        "-Xcompiler=-fvisibility=hidden"@,
    ]
}

/// The compiler flags for `arch`, with the report of the assembler where it is asked for.
pub open spec fn compile_flags(arch: Arch, ptxas_verbose: bool) -> Seq<Seq<char>> {
    common_flags() + seq!["-gencode"@, gencode(arch), target_define(arch)] + (if ptxas_verbose {
        seq!["--ptxas-options=-v"@]
    } else {
        Seq::empty()
    })
}

/// The compiler flags for `arch`, with the report of the assembler where it is asked for.
pub fn nvcc_flags(arch: Arch, ptxas_verbose: bool) -> (flags: Vec<&'static str>)
    ensures
        str_texts(flags@) == compile_flags(arch, ptxas_verbose),
{
    let (code, define) = match arch {
        Arch::Sm90a => ("arch=compute_90a,code=sm_90a", "-DFLASHMLA_TARGET_SM90=1"),
        Arch::Sm100f => ("arch=compute_100f,code=sm_100f", "-DFLASHMLA_TARGET_SM100=1"),
    };
    let mut flags = vec![
        "-O3",
        "-std=c++20",
        "-DNDEBUG",
        "-D_USE_MATH_DEFINES",
        "-Wno-deprecated-declarations",
        "-U__CUDA_NO_HALF_OPERATORS__",
        "-U__CUDA_NO_HALF_CONVERSIONS__",
        "-U__CUDA_NO_HALF2_OPERATORS__",
        "-U__CUDA_NO_BFLOAT16_CONVERSIONS__",
        "--expt-relaxed-constexpr",
        "--expt-extended-lambda",
        "--use_fast_math",
        "-lineinfo",
        "-Xcompiler=-fPIC",
        "-Xcompiler=-fvisibility=hidden",
        "-gencode",
        code,
        define,
    ];
    if ptxas_verbose {
        flags.push("--ptxas-options=-v");
    }
    assert(str_texts(flags@) == compile_flags(arch, ptxas_verbose));
    flags
}

/// The header directories of FlashMLA for `arch`, relative to its root.
pub open spec fn header_dirs(arch: Arch) -> Seq<Seq<char>> {
    seq![
        "csrc"@,
        "csrc/kerutils/include"@,
        match arch {
            Arch::Sm90a => "csrc/sm90"@,
            Arch::Sm100f => "csrc/sm100"@,
        },
        "csrc/cutlass/include"@,
        "csrc/cutlass/tools/util/include"@,
    ]
}

/// The header directories of FlashMLA for `arch`, relative to its root.
pub fn include_dirs(arch: Arch) -> (dirs: Vec<&'static str>)
    ensures
        str_texts(dirs@) == header_dirs(arch),
{
    let own = match arch {
        Arch::Sm90a => "csrc/sm90",
        Arch::Sm100f => "csrc/sm100",
    };
    let dirs = vec![
        "csrc",
        "csrc/kerutils/include",
        own,
        "csrc/cutlass/include",
        "csrc/cutlass/tools/util/include",
    ];
    assert(str_texts(dirs@) == header_dirs(arch));
    dirs
}

/// Whether `c` may stand in the name of an object file as it is.
pub open spec fn is_name_char(c: char) -> bool {
    ||| '0' <= c <= '9'
    ||| 'A' <= c <= 'Z'
    ||| 'a' <= c <= 'z'
    ||| c == '-'
    ||| c == '_'
}

/// The file name `name` with an underscore for each character that cannot stand in the name of an
/// object file.
pub open spec fn stem(name: Seq<char>) -> Seq<char> {
    Seq::new(
        name.len(),
        |i: int|
            if is_name_char(name[i]) {
                name[i]
            } else {
                '_'
            },
    )
}

/// The file name `name` with an underscore for each character that cannot stand in the name of an
/// object file.
pub fn object_stem(name: &str) -> (s: String)
    ensures
        s@ == stem(name@),
{
    let v = chars(name);
    let mut s = String::new();
    let mut i: usize = 0;
    while i < v.len()
        invariant
            v@ == name@,
            i <= v@.len(),
            s@ == stem(name@.take(i as int)),
        decreases v@.len() - i,
    {
        let c = v[i];
        let keep = ('0' <= c && c <= '9') || ('A' <= c && c <= 'Z') || ('a' <= c && c <= 'z') || c
            == '-' || c == '_';
        let out: char = if keep {
            c
        } else {
            '_'
        };
        s.push(out);
        assert(stem(name@.take(i + 1)) == stem(name@.take(i as int)).push(out));
        i = i + 1;
    }
    assert(name@.take(i as int) == name@);
    s
}

/// The number `n` in at least two digits.
pub open spec fn two_digits(n: nat) -> Seq<char> {
    if n < 10 {
        "0"@ + decimal(n)
    } else {
        decimal(n)
    }
}

/// The name of the object file of the source at `index` whose file name is `name`.
pub open spec fn object_text(index: nat, name: Seq<char>) -> Seq<char> {
    two_digits(index) + "_"@ + stem(name) + ".o"@
}

/// The name of the object file of the source at `index` whose file name is `name`.
pub fn object_name(index: usize, name: &str) -> (s: String)
    ensures
        s@ == object_text(index as nat, name@),
{
    let digits = if index < 10 {
        labelled("0", number(index).as_str())
    } else {
        number(index)
    };
    digits.concat("_").concat(object_stem(name).as_str()).concat(".o")
}

/// Whether a switch of the given value is on.
pub open spec fn switches_on(value: Seq<char>) -> bool {
    let v = lowered(value);
    v == "1"@ || v == "true"@ || v == "y"@ || v == "yes"@ || v == "on"@
}

/// Tests whether a switch of the given value is on.
pub fn is_truthy(value: &str) -> (on: bool)
    ensures
        on == switches_on(value@),
{
    let v = to_lower_text(value);
    is_text(&v, "1") || is_text(&v, "true") || is_text(&v, "y") || is_text(&v, "yes") || is_text(
        &v,
        "on",
    )
}

/// The paths that a FlashMLA checkout has, relative to its root.
pub open spec fn checkout_paths() -> Seq<Seq<char>> {
    seq![
        "csrc/params.h"@,
        "csrc/kerutils/include"@,
        "csrc/cutlass/include"@,
        "csrc/cutlass/tools/util/include"@,
    ]
}

/// The paths that a FlashMLA checkout has, relative to its root.
pub fn required_paths() -> (paths: Vec<&'static str>)
    ensures
        str_texts(paths@) == checkout_paths(),
{
    let paths = vec![
        "csrc/params.h",
        "csrc/kerutils/include",
        "csrc/cutlass/include",
        "csrc/cutlass/tools/util/include",
    ];
    assert(str_texts(paths@) == checkout_paths());
    paths
}

/// Tests whether `s` starts with `prefix`.
fn starts_with(s: &str, prefix: &str) -> (starts: bool)
    ensures
        starts == prefix@.is_prefix_of(s@),
{
    let v = chars(s);
    let p = chars(prefix);
    if p.len() > v.len() {
        return false;
    }
    let mut i: usize = 0;
    while i < p.len()
        invariant
            v@ == s@,
            p@ == prefix@,
            i <= p@.len() <= v@.len(),
            p@.take(i as int) == v@.take(i as int),
        decreases p@.len() - i,
    {
        if p[i] != v[i] {
            assert(s@.subrange(0, prefix@.len() as int)[i as int] == v@[i as int]);
            return false;
        }
        assert(p@.take(i + 1) == p@.take(i as int).push(p@[i as int]));
        assert(v@.take(i + 1) == v@.take(i as int).push(v@[i as int]));
        i = i + 1;
    }
    assert(p@.take(i as int) == p@);
    assert(v@.take(i as int) == s@.subrange(0, prefix@.len() as int));
    true
}

/// The path of the CUTLASS utilities in a checkout.
pub open spec fn cutlass_utilities() -> Seq<char> {
    "csrc/cutlass/tools/util/include"@
}

/// How a message names where the path `relative` was looked for.
pub open spec fn source_name(source: Seq<char>, relative: Seq<char>) -> Seq<char> {
    if relative == cutlass_utilities() {
        "FlashMLA CUTLASS utilities"@
    } else {
        source
    }
}

/// How a message names where the path `relative` was looked for: the CUTLASS utilities have a name
/// of their own, and every other path is named after the `source` of the checkout.
pub fn path_source<'a>(source: &'a str, relative: &str) -> (name: &'a str)
    ensures
        name@ == source_name(source@, relative@),
{
    let utilities = "csrc/cutlass/tools/util/include";
    if starts_with(relative, utilities) && starts_with(utilities, relative) {
        assert(relative@ == utilities@);
        "FlashMLA CUTLASS utilities"
    } else {
        source
    }
}

/// The message that the checkout found through `source` lacks the path `relative`, which is `path`
/// in full.
pub open spec fn missing_text(source: Seq<char>, relative: Seq<char>, path: Seq<char>) -> Seq<char> {
    if "csrc/cutlass"@.is_prefix_of(relative) {
        source + " FlashMLA checkout is missing "@ + relative
            + ". Initialize nested submodules with `git submodule update --init --recursive crates/flashmla-sys/vendor/FlashMLA`."@
    } else {
        source + " does not look like a FlashMLA checkout: missing "@ + path
    }
}

/// Says that the checkout found through `source` lacks the path `relative`, which is `path` in
/// full. For a path of CUTLASS it says how to fetch it.
pub fn missing_path_message(source: &str, relative: &str, path: &str) -> (message: String)
    ensures
        message@ == missing_text(source@, relative@, path@),
{
    if starts_with(relative, "csrc/cutlass") {
        labelled(source, " FlashMLA checkout is missing ").concat(relative).concat(
            ". Initialize nested submodules with `git submodule update --init --recursive crates/flashmla-sys/vendor/FlashMLA`.",
        )
    } else {
        labelled(source, " does not look like a FlashMLA checkout: missing ").concat(path)
    }
}

/// Whether an environment variable is set, and to something.
#[derive(Debug, Copy, Clone, PartialEq, Eq, Structural)]
pub enum VarState {
    /// The variable is not set.
    Unset,
    /// The variable is set to nothing.
    Empty,
    /// The variable is set to something.
    Filled,
}

/// Where the CUDA Toolkit is looked for.
#[derive(Debug, Copy, Clone, PartialEq, Eq)]
pub enum CudaRoot {
    /// In the directory that this variable names.
    Variable(&'static str),
    /// Nowhere: this variable is set to nothing.
    EmptyVariable(&'static str),
    /// Around the `nvcc` of the search path.
    SearchPath,
}

/// Whether `choice` is where the CUDA Toolkit is looked for.
pub open spec fn is_cuda_root(choice: CudaRoot, home: VarState, root: VarState, path: VarState)
    -> bool {
    match choice {
        CudaRoot::Variable(name) => {
            ||| home == VarState::Filled && name@ == "CUDA_HOME"@
            ||| home == VarState::Unset && root == VarState::Filled && name@ == "CUDA_ROOT"@
            ||| home == VarState::Unset && root == VarState::Unset && path == VarState::Filled
                && name@ == "CUDA_PATH"@
        },
        CudaRoot::EmptyVariable(name) => {
            ||| home == VarState::Empty && name@ == "CUDA_HOME"@
            ||| home == VarState::Unset && root == VarState::Empty && name@ == "CUDA_ROOT"@
            ||| home == VarState::Unset && root == VarState::Unset && path == VarState::Empty
                && name@ == "CUDA_PATH"@
        },
        CudaRoot::SearchPath => home == VarState::Unset && root == VarState::Unset && path
            == VarState::Unset,
    }
}

/// Chooses where the CUDA Toolkit is looked for. The first of `CUDA_HOME`, `CUDA_ROOT` and
/// `CUDA_PATH` that is set decides.
pub fn cuda_root(home: VarState, root: VarState, path: VarState) -> (choice: CudaRoot)
    ensures
        is_cuda_root(choice, home, root, path),
{
    match (home, root, path) {
        (VarState::Filled, _, _) => CudaRoot::Variable("CUDA_HOME"),
        (VarState::Empty, _, _) => CudaRoot::EmptyVariable("CUDA_HOME"),
        (_, VarState::Filled, _) => CudaRoot::Variable("CUDA_ROOT"),
        (_, VarState::Empty, _) => CudaRoot::EmptyVariable("CUDA_ROOT"),
        (_, _, VarState::Filled) => CudaRoot::Variable("CUDA_PATH"),
        (_, _, VarState::Empty) => CudaRoot::EmptyVariable("CUDA_PATH"),
        _ => CudaRoot::SearchPath,
    }
}

/// The build for SM90 compiles the entry of its prefill kernels, one instance of them for each key
/// width with top-k lengths and without, and one of the decode kernels for each cache layout and
/// head count.
pub proof fn sm90_compiles_every_instance(wide: bool, lengths: bool, v32: bool, many_heads: bool)
    ensures
        sources(Arch::Sm90a).contains("csrc/sm90/prefill/sparse/fwd.cu"@),
        sources(Arch::Sm90a).contains(
            "csrc/sm90/prefill/sparse/instantiations/phase1_k"@ + decimal(
                if wide {
                    576
                } else {
                    512
                },
            ) + (if lengths {
                "_topklen"@
            } else {
                ""@
            }) + ".cu"@,
        ),
        sources(Arch::Sm90a).contains(
            "csrc/sm90/decode/sparse_fp8/instantiations/"@ + (if v32 {
                "v32"@
            } else {
                "model1"@
            }) + "_persistent_h"@ + decimal(
                if many_heads {
                    128
                } else {
                    64
                },
            ) + ".cu"@,
        ),
{
    let all = sources(Arch::Sm90a);
    assert(all.len() == 11);
    assert(all[2] == "csrc/sm90/prefill/sparse/fwd.cu"@);
    lemma_sizes();
    reveal_strlit("");
    reveal_strlit(".cu");
    reveal_strlit("_topklen");
    reveal_strlit("v32");
    reveal_strlit("model1");
    reveal_strlit("_persistent_h");
    reveal_strlit("512");
    reveal_strlit("576");
    reveal_strlit("64");
    reveal_strlit("128");
    reveal_strlit("csrc/sm90/prefill/sparse/instantiations/phase1_k");
    reveal_strlit("csrc/sm90/prefill/sparse/instantiations/phase1_k512.cu");
    reveal_strlit("csrc/sm90/prefill/sparse/instantiations/phase1_k512_topklen.cu");
    reveal_strlit("csrc/sm90/prefill/sparse/instantiations/phase1_k576.cu");
    reveal_strlit("csrc/sm90/prefill/sparse/instantiations/phase1_k576_topklen.cu");
    reveal_strlit("csrc/sm90/decode/sparse_fp8/instantiations/");
    reveal_strlit("csrc/sm90/decode/sparse_fp8/instantiations/model1_persistent_h64.cu");
    reveal_strlit("csrc/sm90/decode/sparse_fp8/instantiations/model1_persistent_h128.cu");
    reveal_strlit("csrc/sm90/decode/sparse_fp8/instantiations/v32_persistent_h64.cu");
    reveal_strlit("csrc/sm90/decode/sparse_fp8/instantiations/v32_persistent_h128.cu");
    if wide && lengths {
        assert(all[6] == "csrc/sm90/prefill/sparse/instantiations/phase1_k"@ + decimal(576)
            + "_topklen"@ + ".cu"@);
    } else if wide {
        assert(all[5] == "csrc/sm90/prefill/sparse/instantiations/phase1_k"@ + decimal(576) + ""@
            + ".cu"@);
    } else if lengths {
        assert(all[4] == "csrc/sm90/prefill/sparse/instantiations/phase1_k"@ + decimal(512)
            + "_topklen"@ + ".cu"@);
    } else {
        assert(all[3] == "csrc/sm90/prefill/sparse/instantiations/phase1_k"@ + decimal(512) + ""@
            + ".cu"@);
    }
    if v32 && many_heads {
        assert(all[10] == "csrc/sm90/decode/sparse_fp8/instantiations/"@ + "v32"@
            + "_persistent_h"@ + decimal(128) + ".cu"@);
    } else if v32 {
        assert(all[9] == "csrc/sm90/decode/sparse_fp8/instantiations/"@ + "v32"@
            + "_persistent_h"@ + decimal(64) + ".cu"@);
    } else if many_heads {
        assert(all[8] == "csrc/sm90/decode/sparse_fp8/instantiations/"@ + "model1"@
            + "_persistent_h"@ + decimal(128) + ".cu"@);
    } else {
        assert(all[7] == "csrc/sm90/decode/sparse_fp8/instantiations/"@ + "model1"@
            + "_persistent_h"@ + decimal(64) + ".cu"@);
    }
}

/// The sizes in file names in decimal.
proof fn lemma_sizes()
    ensures
        decimal(64) == "64"@,
        decimal(128) == "128"@,
        decimal(512) == "512"@,
        decimal(576) == "576"@,
{
    reveal_with_fuel(decimal, 4);
    reveal_strlit("64");
    reveal_strlit("128");
    reveal_strlit("512");
    reveal_strlit("576");
    assert(decimal(64) == "64"@);
    assert(decimal(128) == "128"@);
    assert(decimal(512) == "512"@);
    assert(decimal(576) == "576"@);
}

/// The build for SM100 compiles one instance of the prefill kernels for each head count and key
/// width, the kernels for few indices of prefill and decode, and one instance of the decode kernels
/// for each cache layout.
pub proof fn sm100_compiles_every_instance(wide: bool, decode: bool, v32: bool, many_heads: bool)
    ensures
        sources(Arch::Sm100f).contains(
            "csrc/sm100/prefill/sparse/fwd/head"@ + decimal(
                if many_heads {
                    128
                } else {
                    64
                },
            ) + "/instantiations/phase1_k"@ + decimal(
                if wide {
                    576
                } else {
                    512
                },
            ) + ".cu"@,
        ),
        sources(Arch::Sm100f).contains(
            "csrc/sm100/prefill/sparse/fwd_for_small_topk/head128/instantiations/phase1_"@ + (
            if decode {
                "decode"@
            } else {
                "prefill"@
            }) + "_k512.cu"@,
        ),
        sources(Arch::Sm100f).contains(
            "csrc/sm100/decode/head64/instantiations/"@ + (if v32 {
                "v32"@
            } else {
                "model1"@
            }) + ".cu"@,
        ),
{
    let all = sources(Arch::Sm100f);
    assert(all.len() == 10);
    lemma_sizes();
    reveal_strlit(".cu");
    reveal_strlit("_k512.cu");
    reveal_strlit("decode");
    reveal_strlit("prefill");
    reveal_strlit("v32");
    reveal_strlit("model1");
    reveal_strlit("/instantiations/phase1_k");
    reveal_strlit("512");
    reveal_strlit("576");
    reveal_strlit("64");
    reveal_strlit("128");
    reveal_strlit("csrc/sm100/prefill/sparse/fwd/head");
    reveal_strlit("csrc/sm100/prefill/sparse/fwd/head64/instantiations/phase1_k512.cu");
    reveal_strlit("csrc/sm100/prefill/sparse/fwd/head64/instantiations/phase1_k576.cu");
    reveal_strlit("csrc/sm100/prefill/sparse/fwd/head128/instantiations/phase1_k512.cu");
    reveal_strlit("csrc/sm100/prefill/sparse/fwd/head128/instantiations/phase1_k576.cu");
    reveal_strlit("csrc/sm100/prefill/sparse/fwd_for_small_topk/head128/instantiations/phase1_");
    reveal_strlit(
        "csrc/sm100/prefill/sparse/fwd_for_small_topk/head128/instantiations/phase1_prefill_k512.cu",
    );
    reveal_strlit(
        "csrc/sm100/prefill/sparse/fwd_for_small_topk/head128/instantiations/phase1_decode_k512.cu",
    );
    reveal_strlit("csrc/sm100/decode/head64/instantiations/");
    reveal_strlit("csrc/sm100/decode/head64/instantiations/v32.cu");
    reveal_strlit("csrc/sm100/decode/head64/instantiations/model1.cu");
    if many_heads && wide {
        assert(all[5] == "csrc/sm100/prefill/sparse/fwd/head"@ + decimal(128)
            + "/instantiations/phase1_k"@ + decimal(576) + ".cu"@);
    } else if many_heads {
        assert(all[4] == "csrc/sm100/prefill/sparse/fwd/head"@ + decimal(128)
            + "/instantiations/phase1_k"@ + decimal(512) + ".cu"@);
    } else if wide {
        assert(all[3] == "csrc/sm100/prefill/sparse/fwd/head"@ + decimal(64)
            + "/instantiations/phase1_k"@ + decimal(576) + ".cu"@);
    } else {
        assert(all[2] == "csrc/sm100/prefill/sparse/fwd/head"@ + decimal(64)
            + "/instantiations/phase1_k"@ + decimal(512) + ".cu"@);
    }
    if decode {
        assert(all[9]
            == "csrc/sm100/prefill/sparse/fwd_for_small_topk/head128/instantiations/phase1_"@
            + "decode"@ + "_k512.cu"@);
    } else {
        assert(all[6]
            == "csrc/sm100/prefill/sparse/fwd_for_small_topk/head128/instantiations/phase1_"@
            + "prefill"@ + "_k512.cu"@);
    }
    if v32 {
        assert(all[7] == "csrc/sm100/decode/head64/instantiations/"@ + "v32"@ + ".cu"@);
    } else {
        assert(all[8] == "csrc/sm100/decode/head64/instantiations/"@ + "model1"@ + ".cu"@);
    }
}

/// Every architecture compiles the scheduler and the combination of splits first, and then nothing
/// but its own instances: nine for SM90 and eight for SM100.
pub proof fn architectures_share_two_sources(arch: Arch)
    ensures
        sources(arch)[0] == "csrc/smxx/decode/get_decoding_sched_meta/get_decoding_sched_meta.cu"@,
        sources(arch)[1] == "csrc/smxx/decode/combine/combine.cu"@,
        sources(arch).len() == (match arch {
            Arch::Sm90a => 11int,
            Arch::Sm100f => 10int,
        }),
{
}

/// The code generation flag of an architecture is made of the compiler's name of it, and the target
/// flag of the two numbers of its compute capability run together. The name of its directory is the
/// compiler's name without the underscore.
pub proof fn flags_name_the_architecture(arch: Arch, major: u32, minor: u32)
    requires
        arch_of(major, minor) == Some(arch),
    ensures
        ({
            let name = arch.nvcc_arch_spec();
            &&& gencode(arch) == "arch=compute_"@ + name.skip(3) + ",code="@ + name
            &&& target_define(arch) == "-DFLASHMLA_TARGET_SM"@ + decimal(
                (10 * major + minor) as nat,
            ) + "=1"@
            &&& arch_name(arch) == name.take(2) + name.skip(3)
        }),
{
    reveal_with_fuel(decimal, 4);
    reveal_strlit("arch=compute_");
    reveal_strlit(",code=");
    reveal_strlit("-DFLASHMLA_TARGET_SM");
    reveal_strlit("=1");
    match arch {
        Arch::Sm90a => {
            reveal_strlit("sm_90a");
            reveal_strlit("sm90a");
            reveal_strlit("arch=compute_90a,code=sm_90a");
            reveal_strlit("-DFLASHMLA_TARGET_SM90=1");
            let name = "sm_90a"@;
            assert(gencode(arch) == "arch=compute_"@ + name.skip(3) + ",code="@ + name);
            assert(target_define(arch) == "-DFLASHMLA_TARGET_SM"@ + decimal(90) + "=1"@);
            assert(arch_name(arch) == name.take(2) + name.skip(3));
        },
        Arch::Sm100f => {
            reveal_strlit("sm_100f");
            reveal_strlit("sm100f");
            reveal_strlit("arch=compute_100f,code=sm_100f");
            reveal_strlit("-DFLASHMLA_TARGET_SM100=1");
            let name = "sm_100f"@;
            assert(gencode(arch) == "arch=compute_"@ + name.skip(3) + ",code="@ + name);
            assert(target_define(arch) == "-DFLASHMLA_TARGET_SM"@ + decimal(100) + "=1"@);
            assert(arch_name(arch) == name.take(2) + name.skip(3));
        },
    }
}

/// The architectures are compiled with the same flags but for the last two: optimized C++20 without
/// assertions, with conversions and operators of half-precision numbers, with device lambdas and
/// constant expressions, fast arithmetic and line information, as position-independent code that
/// keeps its symbols to itself. The report of the assembler comes last and only where it is asked
/// for.
pub proof fn architectures_share_their_flags(arch: Arch, other: Arch, ptxas_verbose: bool)
    ensures
        ({
            let flags = compile_flags(arch, ptxas_verbose);
            &&& flags.take(16) == compile_flags(other, !ptxas_verbose).take(16)
            &&& flags.len() == (if ptxas_verbose {
                19int
            } else {
                18int
            })
            &&& flags[15] == "-gencode"@
            &&& flags[16] == gencode(arch)
            &&& flags[17] == target_define(arch)
            &&& ptxas_verbose ==> flags[18] == "--ptxas-options=-v"@
            &&& flags.contains("-O3"@) && flags.contains("-std=c++20"@) && flags.contains(
                "-DNDEBUG"@,
            ) && flags.contains("-D_USE_MATH_DEFINES"@)
            &&& flags.contains("-Wno-deprecated-declarations"@)
            &&& flags.contains("-U__CUDA_NO_HALF_OPERATORS__"@) && flags.contains(
                "-U__CUDA_NO_HALF_CONVERSIONS__"@,
            ) && flags.contains("-U__CUDA_NO_HALF2_OPERATORS__"@) && flags.contains(
                "-U__CUDA_NO_BFLOAT16_CONVERSIONS__"@,
            )
            &&& flags.contains("--expt-relaxed-constexpr"@) && flags.contains(
                "--expt-extended-lambda"@,
            )
            &&& flags.contains("--use_fast_math"@) && flags.contains("-lineinfo"@)
            &&& flags.contains("-Xcompiler=-fPIC"@) && flags.contains(
                "-Xcompiler=-fvisibility=hidden"@,
            )
        }),
{
    let flags = compile_flags(arch, ptxas_verbose);
    let common = common_flags();
    assert(common.len() == 15);
    assert forall|i: int| 0 <= i < 15 implies #[trigger] flags[i] == common[i] by {}
    assert(flags.take(16) == compile_flags(other, !ptxas_verbose).take(16));
    assert(common[0] == "-O3"@ && common[1] == "-std=c++20"@ && common[2] == "-DNDEBUG"@);
    assert(common[3] == "-D_USE_MATH_DEFINES"@ && common[4] == "-Wno-deprecated-declarations"@);
    assert(common[5] == "-U__CUDA_NO_HALF_OPERATORS__"@);
    assert(common[6] == "-U__CUDA_NO_HALF_CONVERSIONS__"@);
    assert(common[7] == "-U__CUDA_NO_HALF2_OPERATORS__"@);
    assert(common[8] == "-U__CUDA_NO_BFLOAT16_CONVERSIONS__"@);
    assert(common[9] == "--expt-relaxed-constexpr"@ && common[10] == "--expt-extended-lambda"@);
    assert(common[11] == "--use_fast_math"@ && common[12] == "-lineinfo"@);
    assert(common[13] == "-Xcompiler=-fPIC"@);
    assert(common[14] == "-Xcompiler=-fvisibility=hidden"@);
    assert(flags[0] == common[0] && flags[1] == common[1] && flags[2] == common[2] && flags[3]
        == common[3] && flags[4] == common[4] && flags[5] == common[5] && flags[6] == common[6]
        && flags[7] == common[7] && flags[8] == common[8] && flags[9] == common[9] && flags[10]
        == common[10] && flags[11] == common[11] && flags[12] == common[12] && flags[13]
        == common[13] && flags[14] == common[14]);
}

/// Headers are looked for in the sources, in the kernel utilities, in the directory of the
/// architecture, where its own sources lie, and in CUTLASS and its utilities. A checkout has to have
/// those of them that every architecture needs, and the header of the parameters.
pub proof fn headers_are_in_the_checkout(arch: Arch, i: int)
    requires
        2 <= i < sources(arch).len(),
    ensures
        ({
            let dirs = header_dirs(arch);
            let paths = checkout_paths();
            &&& dirs.len() == 5 && paths.len() == 4
            &&& dirs[0] == "csrc"@
            &&& dirs[1] == "csrc/kerutils/include"@ && dirs[3] == "csrc/cutlass/include"@ && dirs[4]
                == cutlass_utilities()
            &&& dirs[2].push('/').is_prefix_of(sources(arch)[i])
            &&& paths[0] == "csrc/params.h"@
            &&& paths[1] == dirs[1] && paths[2] == dirs[3] && paths[3] == dirs[4]
            &&& "csrc/cutlass"@.is_prefix_of(dirs[3]) && "csrc/cutlass"@.is_prefix_of(dirs[4])
        }),
{
    reveal_strlit("csrc/cutlass");
    reveal_strlit("csrc/cutlass/include");
    reveal_strlit("csrc/cutlass/tools/util/include");
    match arch {
        Arch::Sm90a => {
            reveal_strlit("csrc/sm90");
            reveal_strlit("csrc/sm90/prefill/sparse/fwd.cu");
            reveal_strlit("csrc/sm90/prefill/sparse/instantiations/phase1_k512.cu");
            reveal_strlit("csrc/sm90/prefill/sparse/instantiations/phase1_k512_topklen.cu");
            reveal_strlit("csrc/sm90/prefill/sparse/instantiations/phase1_k576.cu");
            reveal_strlit("csrc/sm90/prefill/sparse/instantiations/phase1_k576_topklen.cu");
            reveal_strlit("csrc/sm90/decode/sparse_fp8/instantiations/model1_persistent_h64.cu");
            reveal_strlit("csrc/sm90/decode/sparse_fp8/instantiations/model1_persistent_h128.cu");
            reveal_strlit("csrc/sm90/decode/sparse_fp8/instantiations/v32_persistent_h64.cu");
            reveal_strlit("csrc/sm90/decode/sparse_fp8/instantiations/v32_persistent_h128.cu");
        },
        Arch::Sm100f => {
            reveal_strlit("csrc/sm100");
            reveal_strlit("csrc/sm100/prefill/sparse/fwd/head64/instantiations/phase1_k512.cu");
            reveal_strlit("csrc/sm100/prefill/sparse/fwd/head64/instantiations/phase1_k576.cu");
            reveal_strlit("csrc/sm100/prefill/sparse/fwd/head128/instantiations/phase1_k512.cu");
            reveal_strlit("csrc/sm100/prefill/sparse/fwd/head128/instantiations/phase1_k576.cu");
            reveal_strlit(
                "csrc/sm100/prefill/sparse/fwd_for_small_topk/head128/instantiations/phase1_prefill_k512.cu",
            );
            reveal_strlit("csrc/sm100/decode/head64/instantiations/v32.cu");
            reveal_strlit("csrc/sm100/decode/head64/instantiations/model1.cu");
            reveal_strlit(
                "csrc/sm100/prefill/sparse/fwd_for_small_topk/head128/instantiations/phase1_decode_k512.cu",
            );
        },
    }
    let own = header_dirs(arch)[2].push('/');
    assert(own == sources(arch)[i].subrange(0, own.len() as int));
}

/// A file name keeps its length in the name of an object file: letters, digits, hyphens and
/// underscores stay, and every other character becomes an underscore.
pub proof fn object_names_keep_plain_characters(name: Seq<char>, i: int)
    requires
        0 <= i < name.len(),
    ensures
        stem(name).len() == name.len(),
        ({
            let n = name[i] as int;
            let kept = 48 <= n <= 57 || 65 <= n <= 90 || 97 <= n <= 122 || n == 45 || n == 95;
            stem(name)[i] == (if kept {
                name[i]
            } else {
                '_'
            })
        }),
        stem(stem(name)) == stem(name),
{
    assert(stem(stem(name)) == stem(name));
}

/// Numbers have at least two digits and denote themselves, so different sources have differently
/// numbered object files.
pub proof fn object_numbers_read_back(n: nat)
    ensures
        two_digits(n).len() >= 2,
        n < 100 ==> two_digits(n).len() == 2,
        value_of(two_digits(n)) == n,
{
    decimals_read_back(n);
    reveal_with_fuel(decimal, 3);
    reveal_with_fuel(value_of, 3);
    reveal_strlit("0");
    if n < 10 {
        assert(two_digits(n) == seq!['0', digit(n)]);
        assert(two_digits(n).drop_last() == seq!['0']);
        assert(seq!['0'].drop_last() == Seq::<char>::empty());
    } else {
        decimals_read_back(n / 10);
        if n < 100 {
            assert(decimal(n / 10).len() == 1);
        }
    }
}

/// A switch is on for exactly five values, in capital letters or small ones.
pub proof fn switches_have_five_values(value: Seq<char>)
    ensures
        switches_on(value) <==> {
            let v = lowered(value);
            ||| v == seq!['1']
            ||| v == seq!['y']
            ||| v == seq!['o', 'n']
            ||| v == seq!['y', 'e', 's']
            ||| v == seq!['t', 'r', 'u', 'e']
        },
        switches_on(lowered(value)) == switches_on(value),
{
    reveal_strlit("1");
    reveal_strlit("true");
    reveal_strlit("y");
    reveal_strlit("yes");
    reveal_strlit("on");
    assert("1"@ == seq!['1']);
    assert("true"@ == seq!['t', 'r', 'u', 'e']);
    assert("y"@ == seq!['y']);
    assert("yes"@ == seq!['y', 'e', 's']);
    assert("on"@ == seq!['o', 'n']);
    if value.len() > 0 {
        capitals_are_made_small(value, 0);
    } else {
        assert(lowered(lowered(value)) == lowered(value));
    }
}

/// The name of an object file is the number of its source, an underscore, the plain file name and
/// the ending of objects, so sources with different numbers below a hundred have different objects.
pub proof fn object_names_are_numbered(index: nat, other: nat, name: Seq<char>, file: Seq<char>)
    ensures
        object_text(index, name) == two_digits(index).push('_') + stem(name) + seq!['.', 'o'],
        index < 100 && other < 100 && index != other ==> object_text(index, name) != object_text(
            other,
            file,
        ),
{
    reveal_strlit("_");
    reveal_strlit(".o");
    assert("_"@ == seq!['_']);
    assert(".o"@ == seq!['.', 'o']);
    assert(object_text(index, name) == two_digits(index).push('_') + stem(name) + seq!['.', 'o']);
    if index < 100 && other < 100 && index != other {
        object_numbers_read_back(index);
        object_numbers_read_back(other);
        let a = object_text(index, name);
        let b = object_text(other, file);
        assert(a.take(2) == two_digits(index));
        assert(b.take(2) == two_digits(other));
    }
}

/// Messages about the last of the paths that a checkout has, the CUTLASS utilities, name these, and
/// messages about any other path name the source of the checkout.
pub proof fn utilities_are_named(source: Seq<char>, relative: Seq<char>)
    ensures
        relative == checkout_paths()[3] ==> source_name(source, relative)
            == "FlashMLA CUTLASS utilities"@,
        relative != checkout_paths()[3] ==> source_name(source, relative) == source,
{
}

/// A message about a missing path starts with the source of the checkout. It names a path of CUTLASS
/// as it is in the checkout and says how to fetch it, and ends with any other path in full.
pub proof fn missing_paths_are_named(source: Seq<char>, relative: Seq<char>, path: Seq<char>)
    ensures
        source.is_prefix_of(missing_text(source, relative, path)),
        relative.len() >= 12 && relative.take(12) == "csrc/cutlass"@ ==> missing_text(
            source,
            relative,
            path,
        ) == source + " FlashMLA checkout is missing "@ + relative
            + ". Initialize nested submodules with `git submodule update --init --recursive crates/flashmla-sys/vendor/FlashMLA`."@,
        !(relative.len() >= 12 && relative.take(12) == "csrc/cutlass"@) ==> missing_text(
            source,
            relative,
            path,
        ) == source + " does not look like a FlashMLA checkout: missing "@ + path,
{
    reveal_strlit("csrc/cutlass");
    let text = missing_text(source, relative, path);
    assert(source == text.subrange(0, source.len() as int));
    if relative.len() >= 12 {
        assert(relative.subrange(0, 12) == relative.take(12));
    }
}

/// The first of the three variables that is set decides, whatever the later ones are: it is followed
/// where it is filled, and refused where it is empty.
pub proof fn the_first_set_variable_decides(
    choice: CudaRoot,
    home: VarState,
    root: VarState,
    path: VarState,
)
    requires
        is_cuda_root(choice, home, root, path),
    ensures
        home == VarState::Filled ==> (choice matches CudaRoot::Variable(name) && name@
            == "CUDA_HOME"@),
        home == VarState::Empty ==> (choice matches CudaRoot::EmptyVariable(name) && name@
            == "CUDA_HOME"@),
        home == VarState::Unset && root == VarState::Filled ==> (
        choice matches CudaRoot::Variable(name) && name@ == "CUDA_ROOT"@),
        home == VarState::Unset && root == VarState::Empty ==> (
        choice matches CudaRoot::EmptyVariable(name) && name@ == "CUDA_ROOT"@),
        home == VarState::Unset && root == VarState::Unset && path == VarState::Filled ==> (
        choice matches CudaRoot::Variable(name) && name@ == "CUDA_PATH"@),
        home == VarState::Unset && root == VarState::Unset && path == VarState::Empty ==> (
        choice matches CudaRoot::EmptyVariable(name) && name@ == "CUDA_PATH"@),
        home == VarState::Unset && root == VarState::Unset && path == VarState::Unset ==> choice
            is SearchPath,
{
}

/// The texts of a list are those of its items, in their order.
pub proof fn texts_are_those_of_the_items(items: Seq<&str>, i: int)
    requires
        0 <= i < items.len(),
    ensures
        str_texts(items).len() == items.len(),
        str_texts(items)[i] == items[i]@,
{
}

} // verus!
