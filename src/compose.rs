//! Building the dispatch table of a full node and of a light node.
use vstd::prelude::*;
use crate::safety::{DenyUnsafe, RpcError};
use crate::shared::Handle;
use crate::shared::{holds, read_all};
use crate::table::{DispatchTable, Method, Namespace, call_result, names_of};

verus! {

/// Dependencies of a light node. Reads go through the remote blockchain and
/// the fetcher.
pub struct LightDeps {
    /// The client instance to use.
    pub client: Handle,
    /// Transaction pool instance.
    pub pool: Handle,
    /// Remote access to the blockchain.
    pub remote_blockchain: Handle,
    /// Fetcher instance.
    pub fetcher: Handle,
    /// Whether to deny unsafe calls.
    pub deny_unsafe: DenyUnsafe,
}

/// Dependencies of the block-production namespace.
pub struct BabeDeps {
    /// Protocol configuration.
    pub babe_config: Handle,
    /// Pending epoch changes, shared with the sync-state namespace.
    pub shared_epoch_changes: Handle,
    /// The keystore that manages the keys of the node.
    pub keystore: Handle,
}

/// Dependencies of the finality namespace.
pub struct GrandpaDeps {
    /// Voting round info.
    pub shared_voter_state: Handle,
    /// Authority set info, shared with the sync-state namespace.
    pub shared_authority_set: Handle,
    /// Notifications about justification events.
    pub justification_stream: Handle,
    /// Executor that drives the subscriptions.
    pub subscription_executor: Handle,
    /// Finality proof provider.
    pub finality_provider: Handle,
}

/// Dependencies of a full node.
pub struct FullDeps {
    /// The client instance to use.
    pub client: Handle,
    /// Transaction pool instance.
    pub pool: Handle,
    /// The chain-selection strategy.
    pub select_chain: Handle,
    /// A copy of the chain spec.
    pub chain_spec: Handle,
    /// Whether to deny unsafe calls.
    pub deny_unsafe: DenyUnsafe,
    /// Block-production dependencies.
    pub babe: BabeDeps,
    /// Finality dependencies.
    pub grandpa: GrandpaDeps,
}

/// `m` is the method `name`, flagged `is_unsafe`, behind `guard`, reading `reads`.
pub open spec fn described(
    m: Method,
    name: Seq<char>,
    is_unsafe: bool,
    guard: DenyUnsafe,
    reads: Seq<Handle>,
) -> bool {
    m.name@ == name && m.is_unsafe == is_unsafe && m.deny_unsafe == guard && m.reads@ =~= reads
}

pub open spec fn account_next_index() -> Seq<char> {
    "system_accountNextIndex"@
}

pub open spec fn dry_run() -> Seq<char> {
    "system_dryRun"@
}

pub open spec fn query_info() -> Seq<char> {
    "payment_queryInfo"@
}

pub open spec fn epoch_authorship() -> Seq<char> {
    "babe_epochAuthorship"@
}

pub open spec fn round_state() -> Seq<char> {
    "grandpa_roundState"@
}

pub open spec fn subscribe_justifications() -> Seq<char> {
    "grandpa_subscribeJustifications"@
}

pub open spec fn unsubscribe_justifications() -> Seq<char> {
    "grandpa_unsubscribeJustifications"@
}

pub open spec fn prove_finality() -> Seq<char> {
    "grandpa_proveFinality"@
}

pub open spec fn gen_sync_spec() -> Seq<char> {
    "sync_state_genSyncSpec"@
}

/// The names a full node serves, in order of registration.
pub open spec fn full_names() -> Seq<Seq<char>> {
    seq![
        account_next_index(),
        dry_run(),
        query_info(),
        epoch_authorship(),
        round_state(),
        subscribe_justifications(),
        unsubscribe_justifications(),
        prove_finality(),
        gen_sync_spec(),
    ]
}

/// The names a light node serves, in order of registration.
pub open spec fn light_names() -> Seq<Seq<char>> {
    seq![account_next_index(), dry_run(), query_info()]
}

/// The names of the block-production, finality and sync-state namespaces.
pub open spec fn full_only_names() -> Seq<Seq<char>> {
    full_names().subrange(3, 9)
}

/// `ms` are the methods that `create_full` registers for `d`.
pub open spec fn full_composition(ms: Seq<Method>, d: FullDeps) -> bool {
    let g = d.deny_unsafe;
    &&& ms.len() == 9
    &&& described(ms[0], account_next_index(), false, g, seq![d.client, d.pool])
    &&& described(ms[1], dry_run(), true, g, seq![d.client])
    &&& described(ms[2], query_info(), false, g, seq![d.client])
    &&& described(
        ms[3],
        epoch_authorship(),
        true,
        g,
        seq![
            d.client,
            d.babe.shared_epoch_changes,
            d.babe.keystore,
            d.babe.babe_config,
            d.select_chain,
        ],
    )
    &&& described(
        ms[4],
        round_state(),
        false,
        g,
        seq![d.grandpa.shared_authority_set, d.grandpa.shared_voter_state],
    )
    &&& described(
        ms[5],
        subscribe_justifications(),
        false,
        g,
        seq![d.grandpa.justification_stream, d.grandpa.subscription_executor],
    )
    &&& described(
        ms[6],
        unsubscribe_justifications(),
        false,
        g,
        seq![d.grandpa.subscription_executor],
    )
    &&& described(ms[7], prove_finality(), false, g, seq![d.grandpa.finality_provider])
    &&& described(
        ms[8],
        gen_sync_spec(),
        true,
        g,
        seq![
            d.chain_spec,
            d.client,
            d.grandpa.shared_authority_set,
            d.babe.shared_epoch_changes,
        ],
    )
}

/// `ms` are the methods that `create_light` registers for `d`.
pub open spec fn light_composition(ms: Seq<Method>, d: LightDeps) -> bool {
    let g = d.deny_unsafe;
    &&& ms.len() == 3
    &&& described(
        ms[0],
        account_next_index(),
        false,
        g,
        seq![d.client, d.remote_blockchain, d.fetcher, d.pool],
    )
    &&& described(ms[1], dry_run(), true, g, seq![d.client, d.remote_blockchain, d.fetcher])
    &&& described(ms[2], query_info(), false, g, seq![d.remote_blockchain, d.fetcher])
}

fn method(name: &str, is_unsafe: bool, deny_unsafe: DenyUnsafe, reads: Vec<Handle>) -> (m: Method)
    ensures
        described(m, name@, is_unsafe, deny_unsafe, reads@),
{
    Method { name: name.to_owned(), is_unsafe, deny_unsafe, reads }
}


/// Method names of a full node are pairwise distinct; those of a light node
/// are the first three of them.
proof fn lemma_names_distinct()
    ensures
        full_names().no_duplicates(),
        light_names() == full_names().subrange(0, 3),
{
    reveal_strlit("system_accountNextIndex");
    reveal_strlit("system_dryRun");
    reveal_strlit("payment_queryInfo");
    reveal_strlit("babe_epochAuthorship");
    reveal_strlit("grandpa_roundState");
    reveal_strlit("grandpa_subscribeJustifications");
    reveal_strlit("grandpa_unsubscribeJustifications");
    reveal_strlit("grandpa_proveFinality");
    reveal_strlit("sync_state_genSyncSpec");
    let f = full_names();
    assert forall|i: int, j: int| 0 <= i < f.len() && 0 <= j < f.len() && i != j implies f[i]
        != f[j] by {
        assert(f[i].len() != f[j].len());
    }
    assert(light_names() =~= full_names().subrange(0, 3));
}

/// A prefix of a sequence without duplicates has none.
proof fn lemma_prefix_distinct(s: Seq<Seq<char>>, n: int)
    requires
        s.no_duplicates(),
        0 <= n <= s.len(),
    ensures
        s.subrange(0, n).no_duplicates(),
{
    let p = s.subrange(0, n);
    assert forall|i: int, j: int| 0 <= i < p.len() && 0 <= j < p.len() && i != j implies p[i]
        != p[j] by {
        assert(p[i] == s[i] && p[j] == s[j]);
    }
}

/// Registers `ns` into `io`, whose names with those of `ns` are the first
/// `n` names of `all`, which has no duplicates.
fn register_known(io: &mut DispatchTable, ns: Namespace, Ghost(all): Ghost<Seq<Seq<char>>>, Ghost(n): Ghost<int>)
    requires
        old(io).wf(),
        all.no_duplicates(),
        0 <= n <= all.len(),
        names_of(old(io)@) + names_of(ns.methods@) == all.subrange(0, n),
    ensures
        final(io).wf(),
        final(io)@ == old(io)@ + ns.methods@,
{
    proof {
        lemma_prefix_distinct(all, n);
    }
    let _registered = io.register(ns);
}

/// The account and dry-run methods of a full node.
fn full_system(client: Handle, pool: Handle, deny_unsafe: DenyUnsafe) -> (ns: Namespace)
    ensures
        ns.methods@.len() == 2,
        described(ns.methods@[0], account_next_index(), false, deny_unsafe, seq![client, pool]),
        described(ns.methods@[1], dry_run(), true, deny_unsafe, seq![client]),
{
    let next = method("system_accountNextIndex", false, deny_unsafe, vec![client.share(), pool]);
    let dry = method("system_dryRun", true, deny_unsafe, vec![client]);
    Namespace { methods: vec![next, dry] }
}

/// Instantiates every namespace of a full node: system queries, fee
/// estimation, block production, finality and sync state, in that order.
/// The epoch-change and authority-set handles are shared, not copied.
pub fn create_full(deps: FullDeps) -> (r: DispatchTable)
    ensures
        r.wf(),
        full_composition(r@, deps),
        r.names() == full_names(),
{
    let ghost d = deps;
    let FullDeps { client, pool, select_chain, chain_spec, deny_unsafe, babe, grandpa } = deps;
    let BabeDeps { babe_config, shared_epoch_changes, keystore } = babe;
    let GrandpaDeps {
        shared_voter_state,
        shared_authority_set,
        justification_stream,
        subscription_executor,
        finality_provider,
    } = grandpa;
    proof {
        lemma_names_distinct();
    }
    let ghost all = full_names();
    let mut io = DispatchTable::new();

    let system = full_system(client.share(), pool, deny_unsafe);
    assert(names_of(io@) + names_of(system.methods@) =~= all.subrange(0, 2));
    register_known(&mut io, system, Ghost(all), Ghost(2));

    let payment = Namespace {
        methods: vec![method("payment_queryInfo", false, deny_unsafe, vec![client.share()])],
    };
    assert(names_of(io@) + names_of(payment.methods@) =~= all.subrange(0, 3));
    register_known(&mut io, payment, Ghost(all), Ghost(3));

    let block_production = Namespace {
        methods: vec![
            method(
                "babe_epochAuthorship",
                true,
                deny_unsafe,
                vec![
                    client.share(),
                    shared_epoch_changes.share(),
                    keystore,
                    babe_config,
                    select_chain,
                ],
            ),
        ],
    };
    assert(names_of(io@) + names_of(block_production.methods@) =~= all.subrange(0, 4));
    register_known(&mut io, block_production, Ghost(all), Ghost(4));

    let finality = Namespace {
        methods: vec![
            method(
                "grandpa_roundState",
                false,
                deny_unsafe,
                vec![shared_authority_set.share(), shared_voter_state],
            ),
            method(
                "grandpa_subscribeJustifications",
                false,
                deny_unsafe,
                vec![justification_stream, subscription_executor.share()],
            ),
            method(
                "grandpa_unsubscribeJustifications",
                false,
                deny_unsafe,
                vec![subscription_executor],
            ),
            method("grandpa_proveFinality", false, deny_unsafe, vec![finality_provider]),
        ],
    };
    assert(names_of(io@) + names_of(finality.methods@) =~= all.subrange(0, 8));
    register_known(&mut io, finality, Ghost(all), Ghost(8));

    let sync_state = Namespace {
        methods: vec![
            method(
                "sync_state_genSyncSpec",
                true,
                deny_unsafe,
                vec![chain_spec, client, shared_authority_set, shared_epoch_changes],
            ),
        ],
    };
    assert(names_of(io@) + names_of(sync_state.methods@) =~= all.subrange(0, 9));
    register_known(&mut io, sync_state, Ghost(all), Ghost(9));
    assert(io.names() =~= full_names());
    io
}

/// Instantiates the namespaces of a light node: system queries and fee
/// estimation, both reading through the remote blockchain and the fetcher.
/// Block production, finality and sync state are not served.
pub fn create_light(deps: LightDeps) -> (r: DispatchTable)
    ensures
        r.wf(),
        light_composition(r@, deps),
        r.names() == light_names(),
{
    let LightDeps { client, pool, remote_blockchain, fetcher, deny_unsafe } = deps;
    proof {
        lemma_names_distinct();
    }
    let ghost all = full_names();
    let mut io = DispatchTable::new();
    let system = Namespace {
        methods: vec![
            method(
                "system_accountNextIndex",
                false,
                deny_unsafe,
                vec![client.share(), remote_blockchain.share(), fetcher.share(), pool],
            ),
            method(
                "system_dryRun",
                true,
                deny_unsafe,
                vec![client, remote_blockchain.share(), fetcher.share()],
            ),
        ],
    };
    assert(names_of(io@) + names_of(system.methods@) =~= all.subrange(0, 2));
    register_known(&mut io, system, Ghost(all), Ghost(2));
    let payment = Namespace {
        methods: vec![method("payment_queryInfo", false, deny_unsafe, vec![remote_blockchain, fetcher])],
    };
    assert(names_of(io@) + names_of(payment.methods@) =~= all.subrange(0, 3));
    register_known(&mut io, payment, Ghost(all), Ghost(3));
    assert(io.names() =~= light_names());
    io
}


/// Composing a full node twice, from any two bundles, serves the same method
/// names; so does composing a light node twice.
pub proof fn lemma_composition_names_deterministic(
    a: FullDeps,
    b: FullDeps,
    ta: DispatchTable,
    tb: DispatchTable,
    la: LightDeps,
    lb: LightDeps,
    sa: DispatchTable,
    sb: DispatchTable,
)
    requires
        full_composition(ta@, a),
        full_composition(tb@, b),
        light_composition(sa@, la),
        light_composition(sb@, lb),
    ensures
        ta.names() == tb.names(),
        sa.names() == sb.names(),
{
    assert(ta.names() =~= full_names());
    assert(tb.names() =~= full_names());
    assert(sa.names() =~= light_names());
    assert(sb.names() =~= light_names());
}

/// A light node serves none of the block-production, finality and
/// sync-state methods that a full node serves.
pub proof fn lemma_light_omits_full_only(d: LightDeps, t: DispatchTable, f: FullDeps, ft: DispatchTable)
    requires
        light_composition(t@, d),
        full_composition(ft@, f),
    ensures
        forall|k: int| 0 <= k < full_only_names().len() ==> ft.names().contains(#[trigger] full_only_names()[k]),
        forall|k: int| 0 <= k < full_only_names().len() ==> !t.names().contains(#[trigger] full_only_names()[k]),
{
    lemma_names_distinct();
    assert(t.names() =~= light_names());
    assert(ft.names() =~= full_names());
    assert forall|k: int| 0 <= k < full_only_names().len() implies ft.names().contains(#[trigger] full_only_names()[k]) by {
        assert(ft.names()[k + 3] == full_only_names()[k]);
    }
    assert forall|k: int| 0 <= k < full_only_names().len() implies !t.names().contains(#[trigger] full_only_names()[k]) by {
        let f_all = full_names();
        assert(full_only_names()[k] == f_all[k + 3]);
        assert forall|j: int| 0 <= j < t.names().len() implies t.names()[j] != full_only_names()[k] by {
            assert(t.names()[j] == f_all[j]);
        }
    }
}

/// Behind a guard that denies unsafe calls, every method flagged unsafe of a
/// full or a light node is refused with `UnsafeCallDenied`, whatever the
/// shared states hold; `DispatchTable::call` then records nothing.
pub proof fn lemma_denied_guard_refuses_unsafe(
    d: FullDeps,
    t: DispatchTable,
    ld: LightDeps,
    lt: DispatchTable,
    store: Seq<u64>,
)
    requires
        full_composition(t@, d),
        d.deny_unsafe.denies(),
        light_composition(lt@, ld),
        ld.deny_unsafe.denies(),
    ensures
        forall|i: int|
            0 <= i < t@.len() && (#[trigger] t@[i]).is_unsafe ==> call_result(t@[i], store) == Err::<
                Seq<u64>,
                RpcError,
            >(RpcError::UnsafeCallDenied),
        forall|i: int|
            0 <= i < lt@.len() && (#[trigger] lt@[i]).is_unsafe ==> call_result(lt@[i], store) == Err::<
                Seq<u64>,
                RpcError,
            >(RpcError::UnsafeCallDenied),
{
}

/// Every handle of a full bundle points to a state of `store`.
pub open spec fn full_deps_held(store: Seq<u64>, d: FullDeps) -> bool {
    &&& holds(store, d.client)
    &&& holds(store, d.pool)
    &&& holds(store, d.select_chain)
    &&& holds(store, d.chain_spec)
    &&& holds(store, d.babe.babe_config)
    &&& holds(store, d.babe.shared_epoch_changes)
    &&& holds(store, d.babe.keystore)
    &&& holds(store, d.grandpa.shared_voter_state)
    &&& holds(store, d.grandpa.shared_authority_set)
    &&& holds(store, d.grandpa.justification_stream)
    &&& holds(store, d.grandpa.subscription_executor)
    &&& holds(store, d.grandpa.finality_provider)
}

/// After the epoch-change state is set to `version` through any handle to
/// it, the block-production method and the sync-state method of a composed
/// full node both read `version`, with nothing composed anew.
pub proof fn lemma_epoch_update_seen_by_both(
    d: FullDeps,
    t: DispatchTable,
    store: Seq<u64>,
    h: Handle,
    version: u64,
)
    requires
        full_composition(t@, d),
        !d.deny_unsafe.denies(),
        full_deps_held(store, d),
        h == d.babe.shared_epoch_changes,
    ensures
        t@[3].name@ == epoch_authorship(),
        t@[8].name@ == gen_sync_spec(),
        call_result(t@[3], store.update(h.slot as int, version)) matches Ok(v) && v[1] == version,
        call_result(t@[8], store.update(h.slot as int, version)) matches Ok(v) && v[3] == version,
{
    let s2 = store.update(h.slot as int, version);
    assert(full_deps_held(s2, d));
    let m3 = t@[3];
    let m8 = t@[8];
    assert forall|k: int| 0 <= k < m3.reads@.len() implies holds(s2, #[trigger] m3.reads@[k]) by {}
    assert forall|k: int| 0 <= k < m8.reads@.len() implies holds(s2, #[trigger] m8.reads@[k]) by {}
    assert(read_all(s2, m3.reads@)[1] == s2[m3.reads@[1].slot as int]);
    assert(read_all(s2, m8.reads@)[3] == s2[m8.reads@[3].slot as int]);
}


/// After the authority-set state is set to `version` through any handle to
/// it, the finality method and the sync-state method of a composed full node
/// both read `version`, with nothing composed anew.
pub proof fn lemma_authority_set_update_seen_by_both(
    d: FullDeps,
    t: DispatchTable,
    store: Seq<u64>,
    h: Handle,
    version: u64,
)
    requires
        full_composition(t@, d),
        !d.deny_unsafe.denies(),
        full_deps_held(store, d),
        h == d.grandpa.shared_authority_set,
    ensures
        t@[4].name@ == round_state(),
        t@[8].name@ == gen_sync_spec(),
        call_result(t@[4], store.update(h.slot as int, version)) matches Ok(v) && v[0] == version,
        call_result(t@[8], store.update(h.slot as int, version)) matches Ok(v) && v[2] == version,
{
    let s2 = store.update(h.slot as int, version);
    assert(full_deps_held(s2, d));
    let m4 = t@[4];
    let m8 = t@[8];
    assert forall|k: int| 0 <= k < m4.reads@.len() implies holds(s2, #[trigger] m4.reads@[k]) by {}
    assert forall|k: int| 0 <= k < m8.reads@.len() implies holds(s2, #[trigger] m8.reads@[k]) by {}
    assert(read_all(s2, m4.reads@)[0] == s2[m4.reads@[0].slot as int]);
    assert(read_all(s2, m8.reads@)[2] == s2[m8.reads@[2].slot as int]);
}

} // verus!
