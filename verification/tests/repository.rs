use realm_core::entity::Entity;
use realm_core::in_memory_repository::InMemoryRepository;
use realm_core::option_ext::OptionExt;
use realm_core::person::Person;
use realm_core::realm_config::RealmConfig;
use realm_core::repository::Repository;
use std::cell::Cell;

#[derive(Clone, Debug, PartialEq)]
struct TestEntity {
    key: u64,
    name: String,
}

impl Entity<u64> for TestEntity {
    fn id_spec(&self) -> u64 {
        self.key
    }

    fn id(&self) -> u64 {
        self.key
    }
}

fn entity(key: u64, name: &str) -> TestEntity {
    TestEntity { key, name: name.to_string() }
}

#[test]
fn save_then_get_by_id_finds_the_entity() {
    let mut repo: InMemoryRepository<u64, TestEntity> = InMemoryRepository::new();
    repo.save(entity(1, "alpha"));
    repo.save(entity(2, "beta"));
    assert_eq!(repo.get_by_id(&1), Some(&entity(1, "alpha")));
    assert_eq!(repo.get_by_id(&2), Some(&entity(2, "beta")));
    assert_eq!(repo.get_by_id(&3), None);
}

#[test]
fn save_overwrites_an_existing_key() {
    let mut repo: InMemoryRepository<u64, TestEntity> = InMemoryRepository::new();
    repo.save(entity(7, "first"));
    repo.save(entity(7, "second"));
    assert_eq!(repo.get_by_id(&7), Some(&entity(7, "second")));
    assert_eq!(repo.get_all().len(), 1);
}

#[test]
fn get_all_hands_out_every_entity() {
    let mut repo: InMemoryRepository<u64, TestEntity> = InMemoryRepository::new();
    assert_eq!(repo.get_all().len(), 0);
    repo.save(entity(1, "a"));
    repo.save(entity(2, "b"));
    repo.save(entity(3, "c"));
    let all = repo.get_all();
    assert_eq!(all.len(), 3);
    for k in 1..=3u64 {
        assert!(all.iter().any(|e| e.key == k));
    }
}

#[test]
fn delete_removes_exactly_the_key() {
    let mut repo: InMemoryRepository<u64, TestEntity> = InMemoryRepository::new();
    repo.save(entity(1, "a"));
    repo.save(entity(2, "b"));
    assert_eq!(repo.delete(&1), Some(entity(1, "a")));
    assert_eq!(repo.delete(&1), None);
    assert_eq!(repo.get_by_id(&1), None);
    assert_eq!(repo.get_by_id(&2), Some(&entity(2, "b")));
    assert_eq!(repo.delete(&9), None);
}

#[test]
fn realm_config_keeps_its_fields() {
    let config = RealmConfig::new("main".to_string(), "127.0.0.1".to_string(), 3456);
    assert_eq!(config.name, "main");
    assert_eq!(config.address, "127.0.0.1");
    assert_eq!(config.port, 3456);
}

#[test]
fn person_default_is_buildable() {
    let _person = Person::default();
}

#[test]
fn if_present_runs_the_action_only_on_some() {
    let seen = Cell::new(0);
    let some: Option<i32> = Some(41);
    some.if_present(|v| seen.set(*v + 1));
    assert_eq!(seen.get(), 42);
    let none: Option<i32> = None;
    none.if_present(|v| seen.set(*v + 100));
    assert_eq!(seen.get(), 42);
}
