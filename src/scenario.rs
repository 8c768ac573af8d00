//! One cross-contract scenario as a state machine: deploy Flip, toggle it,
//! deploy Inc with Flip's address as its argument, then toggle through Inc.
//! The caller performs each action against an execution context and hands
//! back whether it was accepted, the event log and the deployer's counter.
use vstd::prelude::*;
use vstd::string::*;
use crate::artifact::{
    bytecode_of, find_bytecode, find_selector, selector_of, ArtifactError, Json, Role, Schema,
};
use crate::driver::{
    call_request, check_dispatch, instantiate_request, is_call, is_instantiation, with_address_arg, CallRequest,
    ExecutionError, InstantiationRequest,
};
use crate::events::{
    lemma_latest_is_newest_instantiation, latest_instantiated, latest_instantiated_address, AccountId, ContextEvent, ResolutionError,
};
use crate::salt::{is_salt_for, SaltPolicy};

verus! {

/// The toolchain that compiled a contract, which fixes its artifact's schema.
#[derive(Debug, Clone, Copy, PartialEq, Eq, Structural)]
pub enum Toolchain {
    Solidity,
    Ink,
}

pub open spec fn schema_of(t: Toolchain) -> Schema {
    match t {
        Toolchain::Solidity => Schema::Flat,
        Toolchain::Ink => Schema::Versioned,
    }
}

impl Toolchain {
    pub fn schema(&self) -> (r: Schema)
        ensures
            r == schema_of(*self),
    {
        match self {
            Toolchain::Solidity => Schema::Flat,
            Toolchain::Ink => Schema::Versioned,
        }
    }
}

/// What one contract's artifact yields for a scenario.
#[derive(Debug, Clone)]
pub struct PreparedContract {
    pub code: Vec<u8>,
    pub constructor: Vec<u8>,
    pub message: Vec<u8>,
}

/// The first error met while reading code, the constructor named `new` and
/// the message named by `message`, in that order.
pub open spec fn preparation_error(doc: Json, schema: Schema, message: Seq<u8>) -> Option<
    ArtifactError,
> {
    match bytecode_of(doc) {
        Err(e) => Some(e),
        Ok(_) => match selector_of(doc, schema, Role::Constructor, "new".spec_bytes()) {
            Err(e) => Some(e),
            Ok(_) => match selector_of(doc, schema, Role::Message, message) {
                Err(e) => Some(e),
                Ok(_) => None,
            },
        },
    }
}

pub open spec fn is_prepared_from(p: PreparedContract, doc: Json, schema: Schema, message: Seq<u8>) -> bool {
    &&& bytecode_of(doc) == Ok::<Seq<u8>, ArtifactError>(p.code@)
    &&& selector_of(doc, schema, Role::Constructor, "new".spec_bytes()) == Ok::<
        Seq<u8>,
        ArtifactError,
    >(p.constructor@)
    &&& selector_of(doc, schema, Role::Message, message) == Ok::<Seq<u8>, ArtifactError>(
        p.message@,
    )
}

/// Reads a contract's code, its constructor named `new` and the message named
/// by `message` out of its artifact.
pub fn prepare_contract(doc: &Json, schema: Schema, message: &str) -> (r: Result<
    PreparedContract,
    ArtifactError,
>)
    ensures
        match r {
            Ok(p) => preparation_error(*doc, schema, message.spec_bytes()) is None
                && is_prepared_from(p, *doc, schema, message.spec_bytes()),
            Err(e) => preparation_error(*doc, schema, message.spec_bytes()) == Some(e),
        },
{
    let code = match find_bytecode(doc) {
        Ok(c) => c,
        Err(e) => return Err(e),
    };
    let constructor = match find_selector(doc, schema, Role::Constructor, "new") {
        Ok(c) => c,
        Err(e) => return Err(e),
    };
    let msg = match find_selector(doc, schema, Role::Message, message) {
        Ok(m) => m,
        Err(e) => return Err(e),
    };
    Ok(PreparedContract { code, constructor, message: msg })
}

/// The name of Inc's delegating message under each schema.
pub open spec fn delegate_name(schema: Schema) -> Seq<u8> {
    match schema {
        Schema::Flat => "superFlip".spec_bytes(),
        Schema::Versioned => "super_flip".spec_bytes(),
    }
}

/// Where a scenario stands; resolved addresses travel with it.
#[derive(Debug, Clone, Copy, PartialEq, Eq)]
pub enum Stage {
    Ready,
    FlipInstantiating,
    FlipCalling { flip: AccountId },
    IncInstantiating { flip: AccountId },
    IncCalling { flip: AccountId, inc: AccountId },
    Finished { flip: AccountId, inc: AccountId },
    Failed,
}

/// What the caller is to do next.
#[derive(Debug, Clone)]
pub enum Action {
    Instantiate(InstantiationRequest),
    Call(CallRequest),
    Done,
}

#[derive(Debug, Clone, Copy, PartialEq, Eq, Structural)]
pub enum ScenarioError {
    Artifact(ArtifactError),
    Execution(ExecutionError),
    Resolution(ResolutionError),
    /// Inc resolved to the address that Flip already has.
    AddressReused,
}

pub struct Scenario {
    pub deployer: AccountId,
    pub policy: SaltPolicy,
    pub flip: PreparedContract,
    pub inc: PreparedContract,
    pub stage: Stage,
}

/// The stages at which an action is outstanding.
pub open spec fn is_pending(s: Stage) -> bool {
    match s {
        Stage::FlipInstantiating | Stage::FlipCalling { .. } | Stage::IncInstantiating { .. }
        | Stage::IncCalling { .. } => true,
        _ => false,
    }
}

/// Whether `r` instantiates `c` from `origin` with constructor input `data`
/// and a salt that `policy` may give for it.
pub open spec fn instantiates(
    r: Result<Action, ScenarioError>,
    origin: AccountId,
    c: PreparedContract,
    data: Seq<u8>,
    policy: SaltPolicy,
    nonce: u32,
) -> bool {
    match r {
        Ok(Action::Instantiate(q)) => is_instantiation(q, origin, c.code@, data, q.salt@)
            && is_salt_for(policy, data, nonce, q.salt@),
        _ => false,
    }
}

pub open spec fn calls(r: Result<Action, ScenarioError>, origin: AccountId, dest: AccountId, data: Seq<u8>) -> bool {
    match r {
        Ok(Action::Call(c)) => is_call(c, origin, dest, data),
        _ => false,
    }
}

/// The next stage and result of a scenario at stage `s` once its outstanding
/// action was answered with `accepted`, event log `log` and counter `nonce`.
pub open spec fn step(
    sc: Scenario,
    accepted: bool,
    log: Seq<ContextEvent>,
    nonce: u32,
    next: Stage,
    r: Result<Action, ScenarioError>,
) -> bool {
    if !accepted {
        next == Stage::Failed && r == Err::<Action, ScenarioError>(
            ScenarioError::Execution(ExecutionError::DispatchFailed),
        )
    } else {
        match sc.stage {
            Stage::FlipInstantiating => match latest_instantiated(log) {
                None => next == Stage::Failed && r == Err::<Action, ScenarioError>(
                    ScenarioError::Resolution(ResolutionError::NotFound),
                ),
                Some(a) => next == (Stage::FlipCalling { flip: a }) && calls(
                    r,
                    sc.deployer,
                    a,
                    sc.flip.message@,
                ),
            },
            Stage::FlipCalling { flip } => next == (Stage::IncInstantiating { flip })
                && instantiates(
                r,
                sc.deployer,
                sc.inc,
                sc.inc.constructor@ + flip.bytes@,
                sc.policy,
                nonce,
            ),
            Stage::IncInstantiating { flip } => match latest_instantiated(log) {
                None => next == Stage::Failed && r == Err::<Action, ScenarioError>(
                    ScenarioError::Resolution(ResolutionError::NotFound),
                ),
                Some(a) => if a == flip {
                    next == Stage::Failed && r == Err::<Action, ScenarioError>(
                        ScenarioError::AddressReused,
                    )
                } else {
                    next == (Stage::IncCalling { flip, inc: a }) && calls(
                        r,
                        sc.deployer,
                        a,
                        sc.inc.message@,
                    )
                },
            },
            Stage::IncCalling { flip, inc } => next == (Stage::Finished { flip, inc }) && r
                matches Ok(Action::Done),
            _ => false,
        }
    }
}

impl Scenario {
    /// Reads both artifacts and sets up a scenario that deploys Flip, built
    /// by `flip_toolchain`, and Inc, built by `inc_toolchain`.
    pub fn new(
        flip_toolchain: Toolchain,
        flip_doc: &Json,
        inc_toolchain: Toolchain,
        inc_doc: &Json,
        deployer: AccountId,
        policy: SaltPolicy,
    ) -> (r: Result<Scenario, ScenarioError>)
        ensures
            match r {
                Ok(s) => {
                    &&& s.stage == Stage::Ready
                    &&& s.deployer == deployer
                    &&& s.policy == policy
                    &&& is_prepared_from(
                        s.flip,
                        *flip_doc,
                        schema_of(flip_toolchain),
                        "flip".spec_bytes(),
                    )
                    &&& is_prepared_from(
                        s.inc,
                        *inc_doc,
                        schema_of(inc_toolchain),
                        delegate_name(schema_of(inc_toolchain)),
                    )
                },
                Err(e) => match preparation_error(
                    *flip_doc,
                    schema_of(flip_toolchain),
                    "flip".spec_bytes(),
                ) {
                    Some(fe) => e == ScenarioError::Artifact(fe),
                    None => match preparation_error(
                        *inc_doc,
                        schema_of(inc_toolchain),
                        delegate_name(schema_of(inc_toolchain)),
                    ) {
                        Some(ie) => e == ScenarioError::Artifact(ie),
                        None => false,
                    },
                },
            },
    {
        let flip = match prepare_contract(flip_doc, flip_toolchain.schema(), "flip") {
            Ok(p) => p,
            Err(e) => return Err(ScenarioError::Artifact(e)),
        };
        let inc_schema = inc_toolchain.schema();
        let inc = match inc_schema {
            Schema::Flat => prepare_contract(inc_doc, inc_schema, "superFlip"),
            Schema::Versioned => prepare_contract(inc_doc, inc_schema, "super_flip"),
        };
        let inc = match inc {
            Ok(p) => p,
            Err(e) => return Err(ScenarioError::Artifact(e)),
        };
        Ok(Scenario { deployer, policy, flip, inc, stage: Stage::Ready })
    }

    /// The first action: instantiate Flip with its constructor selector as
    /// input and a freshly drawn salt.
    pub fn begin(&mut self, nonce: u32) -> (r: Action)
        requires
            old(self).stage == Stage::Ready,
        ensures
            final(self).stage == Stage::FlipInstantiating,
            final(self).deployer == old(self).deployer,
            final(self).policy == old(self).policy,
            final(self).flip == old(self).flip,
            final(self).inc == old(self).inc,
            instantiates(
                Ok(r),
                old(self).deployer,
                old(self).flip,
                old(self).flip.constructor@,
                old(self).policy,
                nonce,
            ),
    {
        let data = self.flip.constructor.clone();
        let salt = self.policy.next_salt(&data, nonce);
        self.stage = Stage::FlipInstantiating;
        Action::Instantiate(instantiate_request(self.deployer, self.flip.code.clone(), data, salt))
    }

    /// Takes the answer to the outstanding action and returns the next one;
    /// every failure ends the scenario.
    pub fn advance(&mut self, accepted: bool, log: &Vec<ContextEvent>, nonce: u32) -> (r: Result<
        Action,
        ScenarioError,
    >)
        requires
            is_pending(old(self).stage),
        ensures
            final(self).deployer == old(self).deployer,
            final(self).policy == old(self).policy,
            final(self).flip == old(self).flip,
            final(self).inc == old(self).inc,
            step(*old(self), accepted, log@, nonce, final(self).stage, r),
    {
        if let Err(e) = check_dispatch(accepted) {
            self.stage = Stage::Failed;
            return Err(ScenarioError::Execution(e));
        }
        match self.stage {
            Stage::FlipInstantiating => match latest_instantiated_address(log) {
                Err(e) => {
                    self.stage = Stage::Failed;
                    Err(ScenarioError::Resolution(e))
                },
                Ok(a) => {
                    self.stage = Stage::FlipCalling { flip: a };
                    Ok(Action::Call(call_request(self.deployer, a, self.flip.message.clone())))
                },
            },
            Stage::FlipCalling { flip } => {
                let data = with_address_arg(&self.inc.constructor, &flip);
                let salt = self.policy.next_salt(&data, nonce);
                self.stage = Stage::IncInstantiating { flip };
                Ok(
                    Action::Instantiate(
                        instantiate_request(self.deployer, self.inc.code.clone(), data, salt),
                    ),
                )
            },
            Stage::IncInstantiating { flip } => match latest_instantiated_address(log) {
                Err(e) => {
                    self.stage = Stage::Failed;
                    Err(ScenarioError::Resolution(e))
                },
                Ok(a) => {
                    if a.same_as(&flip) {
                        self.stage = Stage::Failed;
                        Err(ScenarioError::AddressReused)
                    } else {
                        self.stage = Stage::IncCalling { flip, inc: a };
                        Ok(Action::Call(call_request(self.deployer, a, self.inc.message.clone())))
                    }
                },
            },
            Stage::IncCalling { flip, inc } => {
                self.stage = Stage::Finished { flip, inc };
                Ok(Action::Done)
            },
            _ => Ok(Action::Done),
        }
    }
}

/// When Flip's instantiation is accepted and its event is the newest
/// instantiation in the log, the scenario goes on with exactly that address.
pub proof fn lemma_flip_address_is_resolved(
    sc: Scenario,
    log: Seq<ContextEvent>,
    contract: AccountId,
    later: Seq<ContextEvent>,
    nonce: u32,
    next: Stage,
    r: Result<Action, ScenarioError>,
)
    requires
        sc.stage == Stage::FlipInstantiating,
        forall|k: int| 0 <= k < later.len() ==> later[k] == ContextEvent::Other,
        step(
            sc,
            true,
            log.push(ContextEvent::Instantiated { deployer: sc.deployer, contract }) + later,
            nonce,
            next,
            r,
        ),
    ensures
        next == (Stage::FlipCalling { flip: contract }),
        calls(r, sc.deployer, contract, sc.flip.message@),
{
    lemma_latest_is_newest_instantiation(log, sc.deployer, contract, later);
}

/// A scenario never goes on with Inc at Flip's address: the two
/// instantiations it resolves are distinct.
pub proof fn lemma_resolved_addresses_differ(
    sc: Scenario,
    accepted: bool,
    log: Seq<ContextEvent>,
    nonce: u32,
    next: Stage,
    r: Result<Action, ScenarioError>,
)
    requires
        is_pending(sc.stage),
        step(sc, accepted, log, nonce, next, r),
    ensures
        next matches Stage::IncCalling { flip, inc } ==> flip != inc,
{
}

} // verus!
