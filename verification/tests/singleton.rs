use dependencies::components::git::Git;
use dependencies::components::zshrc::Zshrc;
use dependencies::{ConfigStatus, DependencyInfo};

#[test]
fn test_singleton_new_returns_same_instance() {
    let instance1 = Git::singleton();
    let instance2 = Git::singleton();
    assert!(std::ptr::eq(instance1, instance2));
}

#[test]
fn test_singleton_fields_initialized_correctly() {
    let instance = Git::singleton();
    assert_eq!(instance.git_available, false);
}

#[test]
fn test_singleton_default_impl() {
    let instance = Git::default();
    assert_eq!(instance.git_available, false);
}

#[test]
fn test_singleton_static_initialized_correctly() {
    let instance = Zshrc::singleton();
    assert_eq!(instance.zshrc_available, ConfigStatus::NotPresent);
}

#[test]
fn test_singleton_static_initialized_only_once() {
    let instance1 = Zshrc::singleton();
    let instance2 = Zshrc::singleton();
    assert!(std::ptr::eq(instance1, instance2));
}

#[test]
fn singleton_is_the_component_by_name() {
    assert_eq!(Git::singleton().name(), "git");
    assert_eq!(Git::default().name(), Git::singleton().name());
}
