use project_bootstrap::gitignore::gitignore_write_mode;
use project_bootstrap::gitignore::select_gitignore;
use project_bootstrap::gitignore::GitignoreSelection;
use project_bootstrap::gitignore::WriteMode;
use project_bootstrap::license::license_url;
use project_bootstrap::license::select_license;
use project_bootstrap::license::should_write_notice;
use project_bootstrap::license::LicenseSelection;

fn strings(items: &[&str]) -> Vec<String> {
    items.iter().map(|s| s.to_string()).collect()
}

#[test]
fn unique_exact_stem_is_taken_outright() {
    let stems = strings(&["Rust", "Python"]);
    let sel = select_gitignore(&stems, "rust");
    assert!(matches!(sel, GitignoreSelection::Auto(0)));
}

#[test]
fn matching_is_case_insensitive_on_both_sides() {
    let stems = strings(&["rust"]);
    let sel = select_gitignore(&stems, "RuSt");
    assert!(matches!(sel, GitignoreSelection::Auto(0)));
}

#[test]
fn single_loose_match_still_prompts() {
    let stems = strings(&["Rustfmt"]);
    let sel = select_gitignore(&stems, "rust");
    match sel {
        GitignoreSelection::Prompt(candidates) => assert_eq!(candidates, vec![0]),
        _ => panic!("expected a prompt"),
    }
}

#[test]
fn several_matches_prompt_in_order() {
    let stems = strings(&["Rust", "Go", "rust-analyzer"]);
    let sel = select_gitignore(&stems, "rust");
    match sel {
        GitignoreSelection::Prompt(candidates) => assert_eq!(candidates, vec![0, 2]),
        _ => panic!("expected a prompt"),
    }
}

#[test]
fn no_match_is_reported() {
    let stems = strings(&["Rust", "Python"]);
    let sel = select_gitignore(&stems, "zig");
    assert!(matches!(sel, GitignoreSelection::NoMatch));
}

#[test]
fn no_candidates_means_no_match() {
    let stems: Vec<String> = Vec::new();
    let sel = select_gitignore(&stems, "rust");
    assert!(matches!(sel, GitignoreSelection::NoMatch));
}

#[test]
fn fresh_file_is_overwritten_without_asking() {
    assert!(matches!(gitignore_write_mode(false, 0), WriteMode::Overwrite));
}

#[test]
fn prompt_answers_map_to_modes() {
    assert!(matches!(gitignore_write_mode(true, 0), WriteMode::Overwrite));
    assert!(matches!(gitignore_write_mode(true, 1), WriteMode::Append));
    assert!(matches!(gitignore_write_mode(true, 2), WriteMode::Cancel));
}

#[test]
fn unique_license_key_is_taken_outright() {
    let keys = strings(&["apache-2.0", "mit"]);
    let sel = select_license(&keys, "apache");
    assert!(matches!(sel, LicenseSelection::Single(0)));
    let sel = select_license(&keys, "mit");
    assert!(matches!(sel, LicenseSelection::Single(1)));
}

#[test]
fn license_matching_is_case_sensitive() {
    let keys = strings(&["apache-2.0", "mit"]);
    let sel = select_license(&keys, "Apache");
    match sel {
        LicenseSelection::Prompt(candidates) => assert!(candidates.is_empty()),
        _ => panic!("expected a prompt"),
    }
}

#[test]
fn ambiguous_license_pattern_prompts() {
    let keys = strings(&["apache-2.0", "mit", "lgpl-2.1", "gpl-3.0"]);
    let sel = select_license(&keys, "gpl");
    match sel {
        LicenseSelection::Prompt(candidates) => assert_eq!(candidates, vec![2, 3]),
        _ => panic!("expected a prompt"),
    }
}

#[test]
fn empty_license_pattern_matches_everything() {
    let keys = strings(&["apache-2.0", "mit"]);
    let sel = select_license(&keys, "");
    match sel {
        LicenseSelection::Prompt(candidates) => assert_eq!(candidates, vec![0, 1]),
        _ => panic!("expected a prompt"),
    }
}

#[test]
fn license_address_is_built_from_the_key() {
    assert_eq!(license_url("mit"), "https://api.github.com/licenses/mit");
    assert_eq!(
        license_url("apache-2.0"),
        "https://api.github.com/licenses/apache-2.0"
    );
}

#[test]
fn notice_comes_only_with_a_fresh_apache_license() {
    assert!(should_write_notice("apache-2.0", false));
    assert!(!should_write_notice("apache-2.0", true));
    assert!(!should_write_notice("mit", false));
    assert!(!should_write_notice("apache", false));
}
