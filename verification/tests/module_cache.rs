use holochain_wasmer::deserialized_cache::{CacheKey, DeserializedModuleCache};
use std::sync::Arc;
use holochain_wasmer::module_cache::{lookup_step, FileLookup, LookupAction, LookupEvent, LookupState};
use holochain_wasmer::result::WasmErrorInner;

fn run(events: Vec<LookupEvent>) -> Vec<LookupAction> {
    let mut state = LookupState::Start;
    let mut actions = Vec::new();
    for event in events {
        let (next, action) = lookup_step(state, event);
        state = next;
        actions.push(action);
    }
    assert_eq!(state, LookupState::Done);
    actions
}

#[test]
fn memory_hit_returns_at_once() {
    let actions = run(vec![LookupEvent::Begin, LookupEvent::InMemory(true)]);
    assert_eq!(actions, vec![LookupAction::CheckMemory, LookupAction::ReturnModule]);
}

#[test]
fn file_hit_is_deserialized_and_kept_in_memory() {
    let actions = run(vec![
        LookupEvent::Begin,
        LookupEvent::InMemory(false),
        LookupEvent::FileCache(FileLookup::Found),
        LookupEvent::Deserialized(Ok(())),
        LookupEvent::MemoryStored,
    ]);
    assert_eq!(
        actions,
        vec![
            LookupAction::CheckMemory,
            LookupAction::ReadFile,
            LookupAction::Deserialize,
            LookupAction::StoreMemory,
            LookupAction::ReturnModule,
        ]
    );
}

#[test]
fn corrupt_file_is_removed_and_the_module_rebuilt() {
    let actions = run(vec![
        LookupEvent::Begin,
        LookupEvent::InMemory(false),
        LookupEvent::FileCache(FileLookup::Found),
        LookupEvent::Deserialized(Err("bad artifact".into())),
        LookupEvent::FileRemoved,
        LookupEvent::Built(Ok(())),
        LookupEvent::Serialized(Ok(())),
        LookupEvent::Reloaded(Ok(())),
        LookupEvent::FileStored,
        LookupEvent::MemoryStored,
    ]);
    assert_eq!(
        actions[3..].to_vec(),
        vec![
            LookupAction::RemoveFile,
            LookupAction::Build,
            LookupAction::Serialize,
            LookupAction::Reload,
            LookupAction::StoreFile,
            LookupAction::StoreMemory,
            LookupAction::ReturnModule,
        ]
    );
}

#[test]
fn miss_builds_and_saves_to_both_caches() {
    for lookup in [FileLookup::Missing, FileLookup::Failed] {
        let actions = run(vec![
            LookupEvent::Begin,
            LookupEvent::InMemory(false),
            LookupEvent::FileCache(lookup),
            LookupEvent::Built(Ok(())),
            LookupEvent::Serialized(Ok(())),
            LookupEvent::Reloaded(Ok(())),
            LookupEvent::FileStored,
            LookupEvent::MemoryStored,
        ]);
        assert_eq!(
            actions[2..].to_vec(),
            vec![
                LookupAction::Build,
                LookupAction::Serialize,
                LookupAction::Reload,
                LookupAction::StoreFile,
                LookupAction::StoreMemory,
                LookupAction::ReturnModule,
            ]
        );
    }
}

#[test]
fn build_failure_fails_the_lookup() {
    let actions = run(vec![
        LookupEvent::Begin,
        LookupEvent::InMemory(false),
        LookupEvent::FileCache(FileLookup::Missing),
        LookupEvent::Built(Err("invalid wasm".into())),
    ]);
    match &actions[3] {
        LookupAction::Fail(e) => assert_eq!(e.error, WasmErrorInner::ModuleBuild("invalid wasm".into())),
        other => panic!("{:?}", other),
    }
}

#[test]
fn reload_failure_is_a_deserialize_error() {
    let actions = run(vec![
        LookupEvent::Begin,
        LookupEvent::InMemory(false),
        LookupEvent::FileCache(FileLookup::Missing),
        LookupEvent::Built(Ok(())),
        LookupEvent::Serialized(Ok(())),
        LookupEvent::Reloaded(Err("truncated".into())),
    ]);
    match &actions[5] {
        LookupAction::Fail(e) => assert_eq!(e.error, WasmErrorInner::ModuleDeserialize("truncated".into())),
        other => panic!("{:?}", other),
    }
}

#[test]
fn cache_save_to_memory_only() {
    // no filesystem cache: the file is missing, so the module is built and
    // kept in memory under the key
    let mut cache: DeserializedModuleCache<&str> = DeserializedModuleCache::new();
    let key: CacheKey = [0u8; 32];
    assert!(cache.get_item(&key).is_none());

    let module = Arc::new("add_one");
    let mut state = LookupState::Start;
    let mut event = LookupEvent::Begin;
    let mut returned = None;
    loop {
        let (next, action) = lookup_step(state, event);
        state = next;
        event = match action {
            LookupAction::CheckMemory => LookupEvent::InMemory(cache.get_item(&key).is_some()),
            LookupAction::ReadFile => LookupEvent::FileCache(FileLookup::Missing),
            LookupAction::Build => LookupEvent::Built(Ok(())),
            LookupAction::Serialize => LookupEvent::Serialized(Ok(())),
            LookupAction::Reload => LookupEvent::Reloaded(Ok(())),
            LookupAction::StoreFile => LookupEvent::FileStored,
            LookupAction::StoreMemory => {
                cache.put_item(key, module.clone());
                LookupEvent::MemoryStored
            }
            LookupAction::ReturnModule => {
                returned = Some(module.clone());
                break;
            }
            other => panic!("unexpected action {:?}", other),
        };
    }
    let module = returned.unwrap();
    let deserialized_cached_module = cache.get_item(&key).unwrap();
    assert_eq!(*deserialized_cached_module, *module);
}
