use surveyor::config::{default_config_file, determine_config_path, ConfigError};
use surveyor::driver::{completion_message, no_projects_message, select_projects};
use surveyor::project::{Config, Project};

fn project(name: &str) -> Project {
    Project {
        name: String::from(name),
        slack_webhook_url: format!("https://hooks.example.com/{}", name),
        git_repo_url: format!("https://git.example.com/{}.git", name),
        tmp_prj_directory: format!("/tmp/{}", name),
        aws_api_key: String::from("test-key"),
        aws_secret: String::from("test-secret"),
        aws_default_region: String::from("us-east-1"),
    }
}

#[test]
fn empty_config_selects_nothing() {
    let config = Config { projects: Vec::new() };
    assert_eq!(select_projects(&config, None), Vec::<usize>::new());
    let filter = String::from("anything");
    assert_eq!(select_projects(&config, Some(&filter)), Vec::<usize>::new());
}

#[test]
fn no_filter_selects_all_in_order() {
    let config = Config { projects: vec![project("a"), project("b"), project("c")] };
    assert_eq!(select_projects(&config, None), vec![0, 1, 2]);
}

#[test]
fn filter_selects_exactly_the_named_project() {
    let config = Config { projects: vec![project("a"), project("b")] };
    let filter = String::from("b");
    assert_eq!(select_projects(&config, Some(&filter)), vec![1]);
}

#[test]
fn filter_without_match_selects_nothing() {
    let config = Config { projects: vec![project("a"), project("b")] };
    let filter = String::from("z");
    assert_eq!(select_projects(&config, Some(&filter)), Vec::<usize>::new());
}

#[test]
fn completion_message_names_the_project() {
    let m = completion_message("infra-a");
    assert_eq!(m, "\r\nPlan survey complete for infra-a\n\r\n");
    assert!(m.contains("infra-a"));
}

#[test]
fn no_projects_message_text() {
    assert_eq!(no_projects_message(), "\r\nNo valid projects found in the config file!\n\r\n");
}

#[test]
fn explicit_config_path_wins() {
    let r = determine_config_path(Some(String::from("surveyor.toml")));
    assert_eq!(r, Ok(String::from("surveyor.toml")));
}

#[test]
fn default_config_file_is_under_home() {
    assert_eq!(
        default_config_file("/home/someone"),
        "/home/someone/.config/.surveyor.toml"
    );
}

#[test]
fn config_error_values_are_distinct() {
    assert_ne!(ConfigError::NoConfigFile, ConfigError::Unreadable);
    assert_ne!(ConfigError::Unreadable, ConfigError::Malformed);
    assert_ne!(ConfigError::NoConfigFile, ConfigError::Malformed);
}
