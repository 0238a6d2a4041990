use tetcoin_rpc::compose::{create_full, create_light, BabeDeps, FullDeps, GrandpaDeps, LightDeps};
use tetcoin_rpc::safety::{DenyUnsafe, RpcError};
use tetcoin_rpc::shared::{Handle, SharedStore};

const FULL: [&str; 9] = [
    "system_accountNextIndex",
    "system_dryRun",
    "payment_queryInfo",
    "babe_epochAuthorship",
    "grandpa_roundState",
    "grandpa_subscribeJustifications",
    "grandpa_unsubscribeJustifications",
    "grandpa_proveFinality",
    "sync_state_genSyncSpec",
];

struct Node {
    store: SharedStore,
    epoch: Handle,
    authority_set: Handle,
}

fn full_deps(deny: bool) -> (FullDeps, Node) {
    let mut store = SharedStore::new();
    let client = store.create(1);
    let pool = store.create(2);
    let select_chain = store.create(3);
    let chain_spec = store.create(4);
    let babe_config = store.create(5);
    let epoch = store.create(6);
    let keystore = store.create(7);
    let voter_state = store.create(8);
    let authority_set = store.create(9);
    let justifications = store.create(10);
    let executor = store.create(11);
    let finality_provider = store.create(12);
    let deps = FullDeps {
        client,
        pool,
        select_chain,
        chain_spec,
        deny_unsafe: DenyUnsafe::from_flag(deny),
        babe: BabeDeps { babe_config, shared_epoch_changes: epoch.share(), keystore },
        grandpa: GrandpaDeps {
            shared_voter_state: voter_state,
            shared_authority_set: authority_set.share(),
            justification_stream: justifications,
            subscription_executor: executor,
            finality_provider,
        },
    };
    (deps, Node { store, epoch, authority_set })
}

fn light_deps(deny: bool) -> (LightDeps, SharedStore) {
    let mut store = SharedStore::new();
    let deps = LightDeps {
        client: store.create(1),
        pool: store.create(2),
        remote_blockchain: store.create(3),
        fetcher: store.create(4),
        deny_unsafe: DenyUnsafe::from_flag(deny),
    };
    (deps, store)
}

fn strings(names: &[&str]) -> Vec<String> {
    names.iter().map(|n| n.to_string()).collect()
}

#[test]
fn full_node_serves_all_five_namespaces() {
    let (deps, _) = full_deps(false);
    let t = create_full(deps);
    assert_eq!(t.method_names(), strings(&FULL));
}

#[test]
fn light_node_serves_system_and_fees() {
    let (deps, _) = light_deps(false);
    let t = create_light(deps);
    assert_eq!(t.method_names(), strings(&FULL[..3]));
}

#[test]
fn composing_twice_gives_the_same_names() {
    let (a, _) = full_deps(false);
    let (b, _) = full_deps(true);
    assert_eq!(create_full(a).method_names(), create_full(b).method_names());
    let (la, _) = light_deps(true);
    let (lb, _) = light_deps(false);
    assert_eq!(create_light(la).method_names(), create_light(lb).method_names());
}

#[test]
fn light_node_omits_full_only_methods() {
    let (deps, _) = light_deps(false);
    let t = create_light(deps);
    for name in &FULL[3..] {
        assert!(!t.contains(&name.to_string()));
    }
}

#[test]
fn denied_guard_refuses_every_unsafe_method() {
    let (deps, node) = full_deps(true);
    let t = create_full(deps);
    let mut log: Vec<String> = Vec::new();
    for name in ["system_dryRun", "babe_epochAuthorship", "sync_state_genSyncSpec"] {
        assert_eq!(
            t.call(&name.to_string(), &node.store, &mut log),
            Err(RpcError::UnsafeCallDenied)
        );
    }
    assert!(log.is_empty());
    assert!(t.call(&"grandpa_roundState".to_string(), &node.store, &mut log).is_ok());
    assert_eq!(log, vec!["grandpa_roundState".to_string()]);

    let (ldeps, store) = light_deps(true);
    let lt = create_light(ldeps);
    let mut llog: Vec<String> = Vec::new();
    assert_eq!(
        lt.call(&"system_dryRun".to_string(), &store, &mut llog),
        Err(RpcError::UnsafeCallDenied)
    );
    assert!(llog.is_empty());
}

#[test]
fn epoch_update_is_seen_by_block_production_and_sync_state() {
    let (deps, mut node) = full_deps(false);
    let t = create_full(deps);
    let mut log: Vec<String> = Vec::new();
    assert_eq!(
        t.call(&"babe_epochAuthorship".to_string(), &node.store, &mut log),
        Ok(vec![1, 6, 7, 5, 3])
    );
    assert_eq!(node.store.update(node.epoch, 60), Ok(()));
    assert_eq!(node.store.update(node.authority_set, 90), Ok(()));
    assert_eq!(
        t.call(&"babe_epochAuthorship".to_string(), &node.store, &mut log),
        Ok(vec![1, 60, 7, 5, 3])
    );
    assert_eq!(
        t.call(&"sync_state_genSyncSpec".to_string(), &node.store, &mut log),
        Ok(vec![4, 1, 90, 60])
    );
    assert_eq!(
        t.call(&"grandpa_roundState".to_string(), &node.store, &mut log),
        Ok(vec![90, 8])
    );
}

#[test]
fn light_reads_go_through_the_fetcher() {
    let (deps, store) = light_deps(false);
    let t = create_light(deps);
    let mut log: Vec<String> = Vec::new();
    assert_eq!(t.call(&"payment_queryInfo".to_string(), &store, &mut log), Ok(vec![3, 4]));
    assert_eq!(
        t.call(&"system_accountNextIndex".to_string(), &store, &mut log),
        Ok(vec![1, 3, 4, 2])
    );
}
