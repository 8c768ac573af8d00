use contract_harness::artifact::{ArtifactError, Json};
use contract_harness::driver::{CallRequest, InstantiationRequest, GAS_LIMIT};
use contract_harness::events::{AccountId, ContextEvent, ResolutionError};
use contract_harness::genesis::{ExtBuilder, Genesis};
use contract_harness::salt::SaltPolicy;
use contract_harness::scenario::{Action, Scenario, ScenarioError, Stage, Toolchain};
use contract_harness::driver::ExecutionError;

const ALICE: AccountId = AccountId { bytes: [1u8; 32] };

fn text(s: &str) -> Json {
    Json::Str(s.as_bytes().to_vec())
}

fn obj(members: Vec<(&str, Json)>) -> Json {
    Json::Object(members.into_iter().map(|(k, v)| (k.as_bytes().to_vec(), v)).collect())
}

fn artifact(toolchain: Toolchain, wasm: &str, ctor: &str, messages: Vec<(&str, &str)>) -> Json {
    let key = match toolchain {
        Toolchain::Solidity => "name",
        Toolchain::Ink => "label",
    };
    let entry = |n: &str, s: &str| obj(vec![(key, text(n)), ("selector", text(s))]);
    let spec = obj(vec![
        ("constructors", Json::Array(vec![entry("new", ctor)])),
        ("messages", Json::Array(messages.into_iter().map(|(n, s)| entry(n, s)).collect())),
    ]);
    let source = ("source", obj(vec![("wasm", text(wasm))]));
    match toolchain {
        Toolchain::Solidity => obj(vec![source, ("spec", spec)]),
        Toolchain::Ink => obj(vec![source, ("V3", obj(vec![("spec", spec)]))]),
    }
}

fn flip_artifact(t: Toolchain) -> Json {
    artifact(t, "0x0061736d0101", "0x9bae9d5e", vec![("get", "0x2f865bd9"), ("flip", "0x633aa551")])
}

fn inc_artifact(t: Toolchain) -> Json {
    let name = match t {
        Toolchain::Solidity => "superFlip",
        Toolchain::Ink => "super_flip",
    };
    artifact(t, "0x0061736d0202", "0x11223344", vec![(name, "0xaabbccdd")])
}

/// A stand-in execution context: addresses are a digest of what the
/// deployment submits, and a second deployment at one address is rejected.
struct Context {
    events: Vec<ContextEvent>,
    nonce: u32,
    deployed: Vec<AccountId>,
    salts: Vec<Vec<u8>>,
    calls: Vec<(AccountId, Vec<u8>)>,
    reuse_address: bool,
}

impl Context {
    fn new(g: &Genesis) -> Context {
        assert_eq!(g.block_number, 1);
        assert_eq!(g.sudo, Some(ALICE));
        Context { events: vec![], nonce: 0, deployed: vec![], salts: vec![], calls: vec![], reuse_address: false }
    }

    fn instantiate(&mut self, r: &InstantiationRequest) -> bool {
        assert_eq!((r.value, r.gas_limit, r.storage_deposit_limit), (0, GAS_LIMIT, None));
        let mut seed = r.origin.bytes.to_vec();
        if !self.reuse_address {
            seed.extend_from_slice(&r.code);
            seed.extend_from_slice(&r.data);
            seed.extend_from_slice(&r.salt);
        }
        let contract = AccountId::new(sp_core_hashing::blake2_256(&seed));
        if self.deployed.contains(&contract) && !self.reuse_address {
            return false;
        }
        self.deployed.push(contract);
        self.salts.push(r.salt.clone());
        self.nonce += 1;
        self.events.push(ContextEvent::Other);
        self.events.push(ContextEvent::Instantiated { deployer: r.origin, contract });
        self.events.push(ContextEvent::Other);
        true
    }

    fn call(&mut self, r: &CallRequest) -> bool {
        if !self.deployed.contains(&r.dest) {
            return false;
        }
        self.calls.push((r.dest, r.data.clone()));
        self.nonce += 1;
        self.events.push(ContextEvent::Other);
        true
    }
}

fn genesis() -> Genesis {
    ExtBuilder::default().balances(vec![(ALICE, 100_000_000_000_000_000)]).sudo(ALICE).build()
}

fn run(flip: Toolchain, inc: Toolchain, policy: SaltPolicy) -> (Scenario, Context) {
    let mut ctx = Context::new(&genesis());
    let mut sc = Scenario::new(flip, &flip_artifact(flip), inc, &inc_artifact(inc), ALICE, policy)
        .unwrap();
    let mut action = sc.begin(ctx.nonce);
    loop {
        let accepted = match &action {
            Action::Instantiate(r) => ctx.instantiate(r),
            Action::Call(r) => ctx.call(r),
            Action::Done => break,
        };
        action = sc.advance(accepted, &ctx.events, ctx.nonce).unwrap();
    }
    (sc, ctx)
}

fn run_all_policies(flip: Toolchain, inc: Toolchain) {
    for policy in [SaltPolicy::Empty, SaltPolicy::Nonce, SaltPolicy::Random, SaltPolicy::HashDerived] {
        let (sc, ctx) = run(flip, inc, policy);
        match sc.stage {
            Stage::Finished { flip: f, inc: i } => {
                assert_ne!(f, i);
                assert_eq!(ctx.deployed, vec![f, i]);
                assert_eq!(ctx.calls, vec![(f, vec![0x63, 0x3a, 0xa5, 0x51]), (i, vec![0xaa, 0xbb, 0xcc, 0xdd])]);
            }
            other => panic!("scenario ended at {:?}", other),
        }
    }
}

#[test]
fn test_sol_to_sol() {
    run_all_policies(Toolchain::Solidity, Toolchain::Solidity);
}

#[test]
fn test_ink_to_ink() {
    run_all_policies(Toolchain::Ink, Toolchain::Ink);
}

#[test]
fn test_ink_to_sol() {
    run_all_policies(Toolchain::Ink, Toolchain::Solidity);
}

#[test]
fn test_sol_to_ink() {
    run_all_policies(Toolchain::Solidity, Toolchain::Ink);
}

#[test]
fn empty_salt_scenario_step_by_step() {
    let mut ctx = Context::new(&genesis());
    let t = Toolchain::Ink;
    let mut sc = Scenario::new(t, &flip_artifact(t), t, &inc_artifact(t), ALICE, SaltPolicy::Empty).unwrap();
    let a = sc.begin(ctx.nonce);
    let Action::Instantiate(r) = a else { panic!("expected an instantiation") };
    assert_eq!(r.origin, ALICE);
    assert_eq!(r.code, vec![0x00, 0x61, 0x73, 0x6d, 0x01, 0x01]);
    assert_eq!(r.data, vec![0x9b, 0xae, 0x9d, 0x5e]);
    assert!(r.salt.is_empty());
    assert!(ctx.instantiate(&r));
    let flip = *ctx.deployed.last().unwrap();

    let a = sc.advance(true, &ctx.events, ctx.nonce).unwrap();
    let Action::Call(c) = a else { panic!("expected a call") };
    assert_eq!(c.dest, flip);
    assert_eq!(c.data, vec![0x63, 0x3a, 0xa5, 0x51]);
    assert!(ctx.call(&c));

    let a = sc.advance(true, &ctx.events, ctx.nonce).unwrap();
    let Action::Instantiate(r) = a else { panic!("expected an instantiation") };
    let mut data = vec![0x11, 0x22, 0x33, 0x44];
    data.extend_from_slice(&flip.bytes);
    assert_eq!(r.data, data);
    assert!(r.salt.is_empty());
    assert!(ctx.instantiate(&r));
    let inc = *ctx.deployed.last().unwrap();
    assert_ne!(inc, flip);

    let a = sc.advance(true, &ctx.events, ctx.nonce).unwrap();
    let Action::Call(c) = a else { panic!("expected a call") };
    assert_eq!((c.dest, c.data.clone()), (inc, vec![0xaa, 0xbb, 0xcc, 0xdd]));
    assert!(ctx.call(&c));
    assert!(matches!(sc.advance(true, &ctx.events, ctx.nonce), Ok(Action::Done)));
    assert_eq!(sc.stage, Stage::Finished { flip, inc });
}

#[test]
fn empty_salt_repeats_address_for_identical_deployment() {
    let mut ctx = Context::new(&genesis());
    let t = Toolchain::Solidity;
    let mut first = Scenario::new(t, &flip_artifact(t), t, &inc_artifact(t), ALICE, SaltPolicy::Empty).unwrap();
    let mut second = Scenario::new(t, &flip_artifact(t), t, &inc_artifact(t), ALICE, SaltPolicy::Empty).unwrap();
    let Action::Instantiate(r1) = first.begin(0) else { panic!("expected an instantiation") };
    let Action::Instantiate(r2) = second.begin(5) else { panic!("expected an instantiation") };
    assert_eq!((r1.code.clone(), r1.data.clone(), r1.salt.clone()), (r2.code.clone(), r2.data.clone(), r2.salt.clone()));
    assert!(ctx.instantiate(&r1));
    assert!(!ctx.instantiate(&r2));
    assert_eq!(
        second.advance(false, &ctx.events, ctx.nonce).err(),
        Some(ScenarioError::Execution(ExecutionError::DispatchFailed))
    );
    assert_eq!(second.stage, Stage::Failed);
}

#[test]
fn nonce_salts_advance_between_instantiations() {
    let (_, ctx) = run(Toolchain::Solidity, Toolchain::Solidity, SaltPolicy::Nonce);
    assert_eq!(ctx.salts, vec![vec![0, 0, 0, 0], vec![2, 0, 0, 0]]);
}

#[test]
fn hash_salts_follow_constructor_input() {
    let (sc, ctx) = run(Toolchain::Ink, Toolchain::Ink, SaltPolicy::HashDerived);
    let Stage::Finished { flip, .. } = sc.stage else { panic!("scenario did not finish") };
    let mut inc_data = vec![0x11, 0x22, 0x33, 0x44];
    inc_data.extend_from_slice(&flip.bytes);
    assert_eq!(
        ctx.salts,
        vec![
            sp_core_hashing::blake2_256(&[0x9b, 0xae, 0x9d, 0x5e]).to_vec(),
            sp_core_hashing::blake2_256(&inc_data).to_vec()
        ]
    );
}

#[test]
fn missing_instantiation_event_fails() {
    let t = Toolchain::Ink;
    let mut sc = Scenario::new(t, &flip_artifact(t), t, &inc_artifact(t), ALICE, SaltPolicy::Random).unwrap();
    sc.begin(0);
    assert_eq!(
        sc.advance(true, &vec![ContextEvent::Other], 0).err(),
        Some(ScenarioError::Resolution(ResolutionError::NotFound))
    );
    assert_eq!(sc.stage, Stage::Failed);
}

#[test]
fn reused_address_fails() {
    let mut ctx = Context::new(&genesis());
    ctx.reuse_address = true;
    let t = Toolchain::Solidity;
    let mut sc = Scenario::new(t, &flip_artifact(t), t, &inc_artifact(t), ALICE, SaltPolicy::Nonce).unwrap();
    let mut action = sc.begin(0);
    for _ in 0..2 {
        let accepted = match &action {
            Action::Instantiate(r) => ctx.instantiate(r),
            Action::Call(r) => ctx.call(r),
            Action::Done => panic!("finished early"),
        };
        action = sc.advance(accepted, &ctx.events, ctx.nonce).unwrap();
    }
    let Action::Instantiate(r) = action else { panic!("expected an instantiation") };
    assert!(ctx.instantiate(&r));
    assert_eq!(sc.advance(true, &ctx.events, ctx.nonce).err(), Some(ScenarioError::AddressReused));
}

#[test]
fn bad_artifacts_are_reported() {
    let t = Toolchain::Solidity;
    let no_spec = obj(vec![("source", obj(vec![("wasm", text("0x00"))]))]);
    let r = Scenario::new(t, &no_spec, t, &inc_artifact(t), ALICE, SaltPolicy::Empty);
    assert!(matches!(r, Err(ScenarioError::Artifact(ArtifactError::Malformed))));
    let r = Scenario::new(t, &flip_artifact(t), t, &flip_artifact(t), ALICE, SaltPolicy::Empty);
    assert!(matches!(r, Err(ScenarioError::Artifact(ArtifactError::NotFound))));
    let r = Scenario::new(t, &flip_artifact(t), Toolchain::Ink, &inc_artifact(t), ALICE, SaltPolicy::Empty);
    assert!(matches!(r, Err(ScenarioError::Artifact(ArtifactError::Malformed))));
}
