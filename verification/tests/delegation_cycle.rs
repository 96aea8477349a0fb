use agrox::delegation::{
    batch_access, request_delegation, request_undelegation, request_undelegation_batch, settle_delegation,
    settle_undelegation, settle_undelegation_batch, Access, CommitStatus, DelegationError,
    DelegationRecord, DelegationState, ExecutionContext, Phase,
};
use agrox::fleet::handoff::{delegate, undelegate, DelegateInput, UndelegateAccounts};
use agrox::identity::Identity;
use agrox::key::{cluster_key, cluster_seeds, machine_key, machine_seeds, plant_key};

fn payer() -> Identity {
    Identity { bytes: [3; 32] }
}

fn record(id: &str, phase: Phase) -> DelegationRecord {
    let mut record = DelegationRecord::new(machine_key(id).unwrap(), vec![id.len() as u8]);
    record.phase = phase;
    record
}

#[test]
fn a_new_record_is_resident_and_written_by_the_base_context() {
    let mut record = DelegationRecord::new(cluster_key(), vec![1]);
    assert_eq!(record.state(), DelegationState::Resident);
    assert_eq!(record.access(ExecutionContext::Base), Access::Granted);
    assert_eq!(record.access(ExecutionContext::Ephemeral), Access::Refused);
    assert_eq!(record.write(ExecutionContext::Ephemeral, vec![9]), Err(DelegationError::NotOwner));
    assert_eq!(record.value, vec![1]);
    assert_eq!(record.write(ExecutionContext::Base, vec![2]), Ok(()));
    assert_eq!(record.value, vec![2]);
}

#[test]
fn each_phase_has_its_state_and_its_writer() {
    let cases = [
        (Phase::Resident, DelegationState::Resident, Access::Granted, Access::Refused),
        (Phase::Delegating, DelegationState::Transitioning, Access::Retry, Access::Retry),
        (Phase::Delegated, DelegationState::Delegated, Access::Refused, Access::Granted),
        (Phase::Committing, DelegationState::Transitioning, Access::Retry, Access::Retry),
    ];
    for (phase, state, base, ephemeral) in cases {
        let r = record("m1", phase);
        assert_eq!(r.state(), state);
        assert_eq!(r.access(ExecutionContext::Base), base);
        assert_eq!(r.access(ExecutionContext::Ephemeral), ephemeral);
        assert!(!(base == Access::Granted && ephemeral == Access::Granted));
    }
}

#[test]
fn a_full_cycle_keeps_the_key_and_brings_the_value_back() {
    let mut r = DelegationRecord::new(machine_key("m1").unwrap(), vec![1, 1]);
    let ticket = request_delegation(&mut r, payer(), machine_seeds("m1")).unwrap();
    assert_eq!(ticket.key, machine_key("m1").unwrap());
    assert_eq!(ticket.seeds, machine_seeds("m1"));
    assert_eq!(ticket.value, vec![1, 1]);
    assert_eq!(ticket.payer, payer());
    assert_eq!(r.state(), DelegationState::Transitioning);
    assert_eq!(r.write(ExecutionContext::Base, vec![0]), Err(DelegationError::NotOwner));
    assert_eq!(settle_delegation(&mut r, true), Ok(DelegationState::Delegated));
    assert_eq!(r.state(), DelegationState::Delegated);
    assert_eq!(r.write(ExecutionContext::Base, vec![0]), Err(DelegationError::NotOwner));
    assert_eq!(r.write(ExecutionContext::Ephemeral, vec![2, 2]), Ok(()));
    let request = request_undelegation(&mut r, payer()).unwrap();
    assert_eq!(request.keys, vec![machine_key("m1").unwrap()]);
    assert_eq!(request.payer, payer());
    assert_eq!(r.state(), DelegationState::Transitioning);
    assert_eq!(r.write(ExecutionContext::Ephemeral, vec![0]), Err(DelegationError::NotOwner));
    assert_eq!(settle_undelegation(&mut r, Some(vec![2, 2])), Ok(CommitStatus::Complete));
    assert_eq!(r.state(), DelegationState::Resident);
    assert_eq!(r.key, machine_key("m1").unwrap());
    assert_eq!(r.value, vec![2, 2]);
    assert!(request_delegation(&mut r, payer(), machine_seeds("m1")).is_ok());
}

#[test]
fn delegating_what_is_delegated_fails_and_changes_nothing() {
    for phase in [Phase::Delegated, Phase::Delegating, Phase::Committing] {
        let mut r = record("m1", phase);
        let result = request_delegation(&mut r, payer(), machine_seeds("m1"));
        assert_eq!(result.unwrap_err(), DelegationError::AlreadyDelegated);
        assert_eq!(r.phase, phase);
        assert_eq!(r.value, vec![2]);
        assert_eq!(r.key, machine_key("m1").unwrap());
    }
}

#[test]
fn undelegating_what_is_resident_fails_and_changes_nothing() {
    for phase in [Phase::Resident, Phase::Delegating] {
        let mut r = record("m1", phase);
        let result = request_undelegation(&mut r, payer());
        assert_eq!(result.unwrap_err(), DelegationError::NotDelegated);
        assert_eq!(r.phase, phase);
        assert_eq!(r.value, vec![2]);
    }
}

#[test]
fn the_seeds_must_derive_the_key() {
    let mut r = record("m1", Phase::Resident);
    let wrong = request_delegation(&mut r, payer(), machine_seeds("m2"));
    assert_eq!(wrong.unwrap_err(), DelegationError::SeedMismatch);
    assert_eq!(r.phase, Phase::Resident);
    let other = request_delegation(&mut r, payer(), cluster_seeds());
    assert_eq!(other.unwrap_err(), DelegationError::SeedMismatch);
    assert_eq!(r.phase, Phase::Resident);
}

#[test]
fn a_delegation_that_fails_leaves_the_resource_resident() {
    let mut r = record("m1", Phase::Resident);
    request_delegation(&mut r, payer(), machine_seeds("m1")).unwrap();
    assert_eq!(settle_delegation(&mut r, false), Ok(DelegationState::Resident));
    assert_eq!(r.phase, Phase::Resident);
    assert_eq!(r.value, vec![2]);
    assert_eq!(settle_delegation(&mut r, true), Err(DelegationError::NotTransitioning));
    assert_eq!(r.phase, Phase::Resident);
}

#[test]
fn a_commit_that_fails_can_be_asked_for_again() {
    let mut r = record("m1", Phase::Delegated);
    request_undelegation(&mut r, payer()).unwrap();
    assert_eq!(settle_undelegation(&mut r, None), Ok(CommitStatus::Incomplete));
    assert_eq!(r.phase, Phase::Committing);
    assert_eq!(r.value, vec![2]);
    let again = request_undelegation(&mut r, payer()).unwrap();
    assert_eq!(again.keys, vec![machine_key("m1").unwrap()]);
    assert_eq!(r.phase, Phase::Committing);
    assert_eq!(settle_undelegation(&mut r, Some(vec![8])), Ok(CommitStatus::Complete));
    assert_eq!(r.phase, Phase::Resident);
    assert_eq!(r.value, vec![8]);
    assert_eq!(
        settle_undelegation(&mut r, Some(vec![9])),
        Err(DelegationError::NotTransitioning)
    );
    assert_eq!(r.value, vec![8]);
}

#[test]
fn a_batch_is_asked_for_as_a_whole() {
    let mut batch = vec![
        record("a", Phase::Delegated),
        record("bb", Phase::Committing),
        record("ccc", Phase::Delegated),
    ];
    let request = request_undelegation_batch(&mut batch, payer()).unwrap();
    assert_eq!(
        request.keys,
        vec![machine_key("a").unwrap(), machine_key("bb").unwrap(), machine_key("ccc").unwrap()]
    );
    assert_eq!(request.payer, payer());
    for r in &batch {
        assert_eq!(r.phase, Phase::Committing);
    }
    let mut mixed = vec![record("a", Phase::Delegated), record("bb", Phase::Resident)];
    let refused = request_undelegation_batch(&mut mixed, payer());
    assert_eq!(refused.unwrap_err(), DelegationError::NotDelegated);
    assert_eq!(mixed[0].phase, Phase::Delegated);
    assert_eq!(mixed[1].phase, Phase::Resident);
}

#[test]
fn a_batch_comes_back_all_or_nothing() {
    let mut batch = vec![record("a", Phase::Committing), record("bb", Phase::Committing)];
    let partial = vec![Some(vec![7]), None];
    assert_eq!(settle_undelegation_batch(&mut batch, &partial), Ok(CommitStatus::Incomplete));
    assert_eq!(batch[0].phase, Phase::Committing);
    assert_eq!(batch[1].phase, Phase::Committing);
    assert_eq!(batch[0].value, vec![1]);
    assert_eq!(batch[1].value, vec![2]);
    let short = vec![Some(vec![7])];
    assert_eq!(settle_undelegation_batch(&mut batch, &short), Ok(CommitStatus::Incomplete));
    assert_eq!(batch[0].phase, Phase::Committing);
    assert_eq!(batch[0].value, vec![1]);
    assert!(request_undelegation_batch(&mut batch, payer()).is_ok());
    let full = vec![Some(vec![7]), Some(vec![8, 8])];
    assert_eq!(settle_undelegation_batch(&mut batch, &full), Ok(CommitStatus::Complete));
    assert_eq!(batch[0].phase, Phase::Resident);
    assert_eq!(batch[1].phase, Phase::Resident);
    assert_eq!(batch[0].value, vec![7]);
    assert_eq!(batch[1].value, vec![8, 8]);
    assert_eq!(batch[0].key, machine_key("a").unwrap());
    assert_eq!(batch[1].key, machine_key("bb").unwrap());
}

#[test]
fn a_batch_that_is_not_on_its_way_is_not_settled() {
    let mut batch = vec![record("a", Phase::Committing), record("bb", Phase::Delegated)];
    let full = vec![Some(vec![7]), Some(vec![8])];
    assert_eq!(
        settle_undelegation_batch(&mut batch, &full),
        Err(DelegationError::NotTransitioning)
    );
    assert_eq!(batch[0].phase, Phase::Committing);
    assert_eq!(batch[1].phase, Phase::Delegated);
    assert_eq!(batch[0].value, vec![1]);
    let mut empty: Vec<DelegationRecord> = Vec::new();
    assert_eq!(settle_undelegation_batch(&mut empty, &Vec::new()), Ok(CommitStatus::Complete));
}

#[test]
fn the_registry_is_delegated_under_its_own_seeds() {
    let mut ctx =
        DelegateInput { payer: payer(), pda: DelegationRecord::new(cluster_key(), vec![4]) };
    let ticket = delegate(&mut ctx).unwrap();
    assert_eq!(ticket.key, cluster_key());
    assert_eq!(ticket.seeds, cluster_seeds());
    assert_eq!(ticket.value, vec![4]);
    assert_eq!(ctx.pda.phase, Phase::Delegating);
    assert_eq!(delegate(&mut ctx).unwrap_err(), DelegationError::AlreadyDelegated);
    settle_delegation(&mut ctx.pda, true).unwrap();
    assert_eq!(delegate(&mut ctx).unwrap_err(), DelegationError::AlreadyDelegated);
    assert_eq!(ctx.pda.phase, Phase::Delegated);
    let mut back = UndelegateAccounts { payer: payer(), pda: ctx.pda };
    let request = undelegate(&mut back).unwrap();
    assert_eq!(request.keys, vec![cluster_key()]);
    assert_eq!(back.pda.phase, Phase::Committing);
}

#[test]
fn the_registry_is_not_delegated_under_another_key_nor_brought_back_when_resident() {
    let pda = DelegationRecord::new(plant_key("x").unwrap(), Vec::new());
    let mut ctx = DelegateInput { payer: payer(), pda };
    assert_eq!(delegate(&mut ctx).unwrap_err(), DelegationError::SeedMismatch);
    assert_eq!(ctx.pda.phase, Phase::Resident);
    let mut back =
        UndelegateAccounts { payer: payer(), pda: DelegationRecord::new(cluster_key(), Vec::new()) };
    assert_eq!(undelegate(&mut back).unwrap_err(), DelegationError::NotDelegated);
    assert_eq!(back.pda.phase, Phase::Resident);
}

#[test]
fn several_resources_are_written_only_by_the_owner_of_all() {
    let all_here = vec![record("a", Phase::Resident), record("b", Phase::Resident)];
    assert_eq!(batch_access(&all_here, ExecutionContext::Base), Access::Granted);
    assert_eq!(batch_access(&all_here, ExecutionContext::Ephemeral), Access::Refused);
    let one_away = vec![record("a", Phase::Resident), record("b", Phase::Delegated)];
    assert_eq!(batch_access(&one_away, ExecutionContext::Base), Access::Refused);
    assert_eq!(batch_access(&one_away, ExecutionContext::Ephemeral), Access::Refused);
    let one_moving = vec![record("a", Phase::Resident), record("b", Phase::Committing)];
    assert_eq!(batch_access(&one_moving, ExecutionContext::Base), Access::Retry);
    assert_eq!(batch_access(&one_moving, ExecutionContext::Ephemeral), Access::Refused);
    let moving_and_away = vec![record("a", Phase::Delegating), record("b", Phase::Delegated)];
    assert_eq!(batch_access(&moving_and_away, ExecutionContext::Base), Access::Refused);
    assert_eq!(batch_access(&moving_and_away, ExecutionContext::Ephemeral), Access::Retry);
    let none: Vec<DelegationRecord> = Vec::new();
    assert_eq!(batch_access(&none, ExecutionContext::Base), Access::Granted);
}
