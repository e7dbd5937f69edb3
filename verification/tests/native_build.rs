use flashmla::build::steps::cuda_root;
use flashmla::build::steps::include_dirs;
use flashmla::build::steps::is_truthy;
use flashmla::build::steps::missing_path_message;
use flashmla::build::steps::path_source;
use flashmla::build::steps::name;
use flashmla::build::steps::nvcc_flags;
use flashmla::build::steps::object_name;
use flashmla::build::steps::object_stem;
use flashmla::build::steps::required_paths;
use flashmla::build::steps::selected_sources;
use flashmla::build::steps::CudaRoot;
use flashmla::build::steps::VarState;
use flashmla::build::target::parse_arch;
use flashmla::build::target::parse_detected_archs;
use flashmla::build::target::selected_arch;
use flashmla::build::target::ArchSelection;
use flashmla::build::target::EnvText;
use flashmla::build::words::entry_list;
use flashmla::build::words::trim;
use flashmla::Arch;

#[test]
fn detects_homogeneous_sm100_gpus() {
    assert_eq!(parse_detected_archs("10.0\n10.0\n").unwrap(), Arch::Sm100f);
}

#[test]
fn detects_homogeneous_sm90_gpus() {
    assert_eq!(parse_detected_archs("9.0\n9.0\n").unwrap(), Arch::Sm90a);
}

#[test]
fn rejects_mixed_gpu_architectures() {
    let error = parse_detected_archs("9.0\n10.0\n").unwrap_err();
    assert!(error.contains("mixed GPU architectures"));
}

#[test]
fn rejects_empty_gpu_query() {
    let error = parse_detected_archs("\n").unwrap_err();
    assert!(error.contains("no visible GPUs"));
}

#[test]
fn detection_tolerates_blank_lines_and_carriage_returns() {
    assert_eq!(parse_detected_archs("\r\n 9.0 \r\n\t9.0\r\n\n").unwrap(), Arch::Sm90a);
    assert_eq!(
        parse_detected_archs("9.0\n10.0\n").unwrap_err(),
        "nvidia-smi reported mixed GPU architectures (9.0 and 10.0), but flashmla-rs builds exactly one architecture. Set CUDA_COMPUTE_CAP=90/100 or FLASHMLA_ARCHS=sm90a/sm100f explicitly"
    );
    assert_eq!(
        parse_detected_archs("9.0\n8.6\n").unwrap_err(),
        "nvidia-smi compute capability=\"8.6\" is unsupported. Use CUDA_COMPUTE_CAP=90/100 or FLASHMLA_ARCHS=sm90a/sm100f"
    );
}

#[test]
fn architecture_names_are_normalized() {
    for value in ["90", "9.0", "90a", "SM_90", "sm_90a", " compute_90a\t", "Sm90A"] {
        assert_eq!(parse_arch(value, "x"), Ok(Arch::Sm90a));
    }
    for value in ["100", "10.0", "100f", "SM100", "sm_100f", "COMPUTE_100F"] {
        assert_eq!(parse_arch(value, "x"), Ok(Arch::Sm100f));
    }
    for value in ["120", "12.1", "sm_120", "SM121"] {
        let error = parse_arch(value, "CUDA_COMPUTE_CAP").unwrap_err();
        assert_eq!(
            error,
            format!("CUDA_COMPUTE_CAP={value:?} is unsupported by upstream FlashMLA sparse MLA")
        );
    }
    assert_eq!(
        parse_arch("a\"b\n", "S").unwrap_err(),
        "S=\"a\\\"b\\n\" is unsupported. Use CUDA_COMPUTE_CAP=90/100 or FLASHMLA_ARCHS=sm90a/sm100f"
    );
}

#[test]
fn the_first_variable_that_is_set_selects_the_architecture() {
    let cap = |value: &str| EnvText::Text(value.to_string());
    assert_eq!(
        selected_arch(Some(" sm100f ,".to_string()), cap("90")),
        ArchSelection::Target(Arch::Sm100f)
    );
    assert_eq!(
        selected_arch(Some("sm90a,sm100f".to_string()), EnvText::Unset),
        ArchSelection::Abort(
            "FLASHMLA_ARCHS=\"sm90a,sm100f\" is not supported yet. Use exactly one of sm90a or sm100f."
                .to_string()
        )
    );
    assert_eq!(
        selected_arch(None, cap(" 90 ")),
        ArchSelection::Target(Arch::Sm90a)
    );
    assert_eq!(
        selected_arch(None, cap("12.0")),
        ArchSelection::Unsupported(
            "CUDA_COMPUTE_CAP=\"12.0\" is unsupported by upstream FlashMLA sparse MLA".to_string()
        )
    );
    assert_eq!(
        selected_arch(None, cap("  ")),
        ArchSelection::Abort("CUDA_COMPUTE_CAP is set but empty".to_string())
    );
    assert_eq!(
        selected_arch(None, EnvText::NotUnicode),
        ArchSelection::Abort("CUDA_COMPUTE_CAP is not valid Unicode".to_string())
    );
    assert_eq!(selected_arch(None, EnvText::Unset), ArchSelection::Detect);
}

#[test]
fn trimming_agrees_with_white_space() {
    let mut sample = String::new();
    for code in 0..0x3100 {
        if let Some(c) = char::from_u32(code) {
            let text = format!("{c}x{c}");
            assert_eq!(trim(&text), text.trim());
            sample.push(c);
        }
    }
    assert_eq!(trim(" \t\n"), "");
    assert_eq!(entry_list(",a, b c ,,d", ','), vec!["a", "b c", "d"]);
    assert_eq!(trim(&sample), sample.trim());
}

#[test]
fn sources_depend_on_the_architecture() {
    let sm90 = selected_sources(Arch::Sm90a);
    let sm100 = selected_sources(Arch::Sm100f);
    assert_eq!((sm90.len(), sm100.len()), (11, 10));
    assert_eq!(sm90[..2], sm100[..2]);
    assert_eq!(sm90[1], "csrc/smxx/decode/combine/combine.cu");
    assert!(sm90[2..].iter().all(|s| s.starts_with("csrc/sm90/")));
    assert!(sm100[2..].iter().all(|s| s.starts_with("csrc/sm100/")));
    assert_eq!(include_dirs(Arch::Sm90a)[2], "csrc/sm90");
    assert_eq!(include_dirs(Arch::Sm100f)[2], "csrc/sm100");
    assert_eq!(required_paths().len(), 4);
    assert_ne!(name(Arch::Sm90a), name(Arch::Sm100f));
}

#[test]
fn flags_depend_on_the_architecture() {
    let flags = nvcc_flags(Arch::Sm100f, false);
    assert_eq!(flags.len(), 18);
    assert_eq!(flags[0], "-O3");
    assert_eq!(
        flags[15..],
        ["-gencode", "arch=compute_100f,code=sm_100f", "-DFLASHMLA_TARGET_SM100=1"]
    );
    let verbose = nvcc_flags(Arch::Sm90a, true);
    assert_eq!(
        verbose[15..],
        [
            "-gencode",
            "arch=compute_90a,code=sm_90a",
            "-DFLASHMLA_TARGET_SM90=1",
            "--ptxas-options=-v"
        ]
    );
}

#[test]
fn object_files_are_numbered_and_named_after_their_source() {
    assert_eq!(object_stem("phase1_k512.cu"), "phase1_k512_cu");
    assert_eq!(object_stem("a-b c\u{e9}.cu"), "a-b_c__cu");
    assert_eq!(object_name(3, "v32.cu"), "03_v32_cu.o");
    assert_eq!(object_name(12, "v32.cu"), "12_v32_cu.o");
    assert_eq!(object_name(123, "v32.cu"), "123_v32_cu.o");
}

#[test]
fn switches_are_read_without_regard_to_case() {
    for value in ["1", "true", "TRUE", "y", "Yes", "oN"] {
        assert!(is_truthy(value));
    }
    for value in ["", "0", "false", "yes ", "2"] {
        assert!(!is_truthy(value));
    }
}

#[test]
fn missing_utilities_have_a_name_of_their_own() {
    assert_eq!(path_source("FLASHMLA_ROOT", "csrc/params.h"), "FLASHMLA_ROOT");
    assert_eq!(path_source("FLASHMLA_ROOT", "csrc/cutlass/include"), "FLASHMLA_ROOT");
    assert_eq!(path_source("FLASHMLA_ROOT", "csrc/cutlass/tools/util/include/x"), "FLASHMLA_ROOT");
    assert_eq!(path_source("FLASHMLA_ROOT", "csrc/cutlass/tools"), "FLASHMLA_ROOT");
    let utilities = "csrc/cutlass/tools/util/include";
    assert_eq!(required_paths()[3], utilities);
    assert_eq!(path_source("FLASHMLA_ROOT", utilities), "FlashMLA CUTLASS utilities");
}

#[test]
fn missing_paths_are_explained() {
    assert_eq!(
        missing_path_message("FLASHMLA_ROOT", "csrc/params.h", "/x/csrc/params.h"),
        "FLASHMLA_ROOT does not look like a FlashMLA checkout: missing /x/csrc/params.h"
    );
    assert_eq!(
        missing_path_message("FLASHMLA_ROOT", "csrc/cutlass/include", "/x/csrc/cutlass/include"),
        "FLASHMLA_ROOT FlashMLA checkout is missing csrc/cutlass/include. Initialize nested submodules with `git submodule update --init --recursive crates/flashmla-sys/vendor/FlashMLA`."
    );
}

#[test]
fn the_first_cuda_variable_that_is_set_decides() {
    let (unset, empty, filled) = (VarState::Unset, VarState::Empty, VarState::Filled);
    assert_eq!(cuda_root(filled, empty, filled), CudaRoot::Variable("CUDA_HOME"));
    assert_eq!(cuda_root(empty, filled, filled), CudaRoot::EmptyVariable("CUDA_HOME"));
    assert_eq!(cuda_root(unset, filled, empty), CudaRoot::Variable("CUDA_ROOT"));
    assert_eq!(cuda_root(unset, unset, filled), CudaRoot::Variable("CUDA_PATH"));
    assert_eq!(cuda_root(unset, unset, unset), CudaRoot::SearchPath);
}
