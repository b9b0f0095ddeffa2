use xbase::error::Error;
use xbase::path::{abbrv, is_normal_path, name, socket_address, unique_name};
use xbase::project::{PackageInfo, SwiftProject, TargetDecl};
use xbase::registry::{Registry, Unregistered};

#[test]
fn register_new_project() {
    let mut reg = Registry::new();
    let a = reg.register("/tmp/proj", "/tmp/xbase/tmp_proj.socket".to_string());
    assert_eq!(a, Some("/tmp/xbase/tmp_proj.socket".to_string()));
    assert_eq!(reg.num_clients("/tmp/proj"), Some(1));
    assert!(reg.contains("/tmp/proj"));
}

#[test]
fn register_ref_count() {
    let mut reg = Registry::new();
    let first = reg.register("/tmp/proj", "/tmp/a.socket".to_string());
    let second = reg.register("/tmp/proj", "/tmp/b.socket".to_string());
    assert_eq!(first, second);
    assert_eq!(reg.num_clients("/tmp/proj"), Some(2));
    assert!(matches!(reg.unregister("/tmp/proj"), Unregistered::Detached { remaining: 1 }));
    assert!(reg.contains("/tmp/proj"));
    match reg.unregister("/tmp/proj") {
        Unregistered::Removed { address } => assert_eq!(address, "/tmp/a.socket"),
        _ => panic!("expected removal"),
    }
    assert!(!reg.contains("/tmp/proj"));
    assert_eq!(reg.num_clients("/tmp/proj"), None);
    assert_eq!(reg.address("/tmp/proj"), None);
}

#[test]
fn registry_counts_per_root() {
    let mut reg = Registry::new();
    reg.register("/a", "/s/a".to_string());
    reg.register("/b", "/s/b".to_string());
    reg.register("/a", "/s/x".to_string());
    reg.register("/a", "/s/y".to_string());
    assert!(matches!(reg.unregister("/b"), Unregistered::Removed { .. }));
    assert_eq!(reg.num_clients("/a"), Some(3));
    assert_eq!(reg.address("/a"), Some("/s/a".to_string()));
    assert!(matches!(reg.unregister("/b"), Unregistered::NotFound));
}

#[test]
fn abbreviations() {
    assert_eq!(abbrv("/Users/me/dev/proj"), Ok("me/dev/proj".to_string()));
    assert_eq!(abbrv("/tmp/a/b"), Ok("tmp/a/b".to_string()));
    assert_eq!(abbrv("a/b/c"), Ok("a/b/c".to_string()));
    assert!(matches!(abbrv("/tmp/proj"), Err(Error::Unexpected(_))));
    assert!(matches!(abbrv("a/b"), Err(Error::Unexpected(_))));
}

#[test]
fn unique_names() {
    assert_eq!(unique_name("/Users/me/dev/proj"), Some("me_dev_proj".to_string()));
    assert_eq!(unique_name("/tmp/proj"), None);
}

#[test]
fn display_names_capitalise() {
    assert_eq!(name("/tmp/proj"), Some("Proj".to_string()));
    assert_eq!(name("/tmp/élan"), Some("Élan".to_string()));
    assert_eq!(name("/"), None);
    assert_eq!(name("/tmp/.."), None);
}

fn decl(name: Option<&str>, kind: Option<&str>) -> TargetDecl {
    TargetDecl { name: name.map(|s| s.to_string()), kind: kind.map(|s| s.to_string()) }
}

#[test]
fn package_info_excludes_tests() {
    let mut p = SwiftProject::new("/tmp/proj", vec!["**/.build/**".to_string()]);
    let info = PackageInfo {
        name: Some("proj".to_string()),
        targets: Some(vec![
            decl(Some("App"), Some("executable")),
            decl(Some("AppTests"), Some("test")),
            decl(None, Some("regular")),
            decl(Some("Lib"), None),
            decl(Some("App"), Some("regular")),
        ]),
    };
    assert_eq!(p.update_project_info(info), Ok(()));
    assert_eq!(p.name(), "proj");
    let names: Vec<&str> = p.targets().iter().map(|t| t.0.as_str()).collect();
    assert_eq!(names, vec!["App", "Lib"]);
    assert_eq!(p.targets()[0].1.platform, "macOS");
    assert_eq!(p.targets()[0].1.configurations, vec!["Debug".to_string()]);
    assert_eq!(p.root(), "/tmp/proj");
    assert_eq!(p.watchignore(), &vec!["**/.build/**".to_string()]);
}

#[test]
fn package_info_without_name_is_rejected() {
    let mut p = SwiftProject::new("/tmp/proj", vec![]);
    let info = PackageInfo { name: None, targets: Some(vec![]) };
    assert!(matches!(p.update_project_info(info), Err(Error::DefinitionParsing(_))));
    let info = PackageInfo { name: Some("x".to_string()), targets: None };
    assert!(matches!(p.update_project_info(info), Err(Error::DefinitionParsing(_))));
    assert_eq!(p.name(), "");
    assert!(p.targets().is_empty());
}

#[test]
fn socket_addresses_follow_the_root() {
    assert_eq!(socket_address("/tmp/xbase", "/tmp/proj"), "/tmp/xbase/%2Ftmp%2Fproj.socket");
    assert_eq!(socket_address("/run", "/a/100%"), "/run/%2Fa%2F100%25.socket");
    assert_ne!(socket_address("/run", "/a/b_c"), socket_address("/run", "/a_b/c"));
}

#[test]
fn swift_packages_need_no_compile_database() {
    let p = SwiftProject::new("/tmp/proj", vec![]);
    assert_eq!(p.update_compile_database(), Ok(()));
}

#[test]
fn normal_paths() {
    assert!(is_normal_path("/tmp/proj"));
    assert!(is_normal_path("/"));
    assert!(is_normal_path("a/b"));
    assert!(!is_normal_path("/tmp/proj/"));
    assert!(!is_normal_path("/tmp//proj"));
}
