use openchat_core::model_store::huggingface_hub_base_dir;
use openchat_core::model_store::is_temp_part_file;
use openchat_core::model_store::model_cache_dir;
use openchat_core::model_store::model_cache_dir_in;
use openchat_core::model_store::model_downloading_dir;

#[test]
fn builds_cache_dir() {
    let repo = "mlc-ai/Qwen3-14B-q4f16_1-MLC";
    let dir_str = model_cache_dir(repo);
    assert!(dir_str.contains("huggingface"));
    assert!(dir_str.contains("hub"));
    assert!(dir_str.contains("mlc-ai"));
    assert!(dir_str.contains("Qwen3-14B-q4f16_1-MLC"));
    assert!(dir_str.contains(".cache"));
}

#[test]
fn cache_dir_under_a_given_home() {
    assert_eq!(
        model_cache_dir_in("/home/me", "mlc-ai/Qwen3-14B-q4f16_1-MLC"),
        "/home/me/.cache/huggingface/hub/mlc-ai/Qwen3-14B-q4f16_1-MLC"
    );
    assert_eq!(huggingface_hub_base_dir("/home/me"), "/home/me/.cache/huggingface/hub");
}

#[test]
fn downloading_dir_sits_beside_the_cache_dir() {
    let repo = "mlc-ai/Qwen3-14B-q4f16_1-MLC";
    let staged = model_downloading_dir(repo);
    let done = model_cache_dir(repo);
    assert!(staged.ends_with(".downloading"));
    assert!(staged.starts_with(&done));
}

#[test]
fn part_files_are_recognised_case_insensitively() {
    assert!(is_temp_part_file("weights.part"));
    assert!(is_temp_part_file("weights.PART"));
    assert!(is_temp_part_file("archive.tar.Part"));
    assert!(!is_temp_part_file("weights.bin"));
    assert!(!is_temp_part_file("part"));
    assert!(!is_temp_part_file(".part"));
    assert!(!is_temp_part_file("weights.parts"));
    assert!(!is_temp_part_file(""));
}
