use state_machine::balances::BalancesCall;
use state_machine::errors::ErrorKind;
use state_machine::proof_of_existence::POECall;
use state_machine::runtime::Runtime;
use state_machine::support::Block;
use state_machine::support::Extrinsic;
use state_machine::support::ExtrinsicFailure;
use state_machine::support::Header;
use state_machine::support::RuntimeCall;

fn transfer_ext(caller: &str, to: &str, amount: u128) -> Extrinsic {
    Extrinsic {
        caller: String::from(caller),
        call: RuntimeCall::Balances(BalancesCall::Transfer { to: String::from(to), amount }),
    }
}

fn create_claim_ext(caller: &str, claim: &str) -> Extrinsic {
    Extrinsic {
        caller: String::from(caller),
        call: RuntimeCall::ProofOfExistence(POECall::CreateClaim { claim: String::from(claim) }),
    }
}

fn revoke_claim_ext(caller: &str, claim: &str) -> Extrinsic {
    Extrinsic {
        caller: String::from(caller),
        call: RuntimeCall::ProofOfExistence(POECall::RevokeClaim { claim: String::from(claim) }),
    }
}

#[test]
fn fresh_accounts_read_as_zero() {
    let runtime = Runtime::new();
    let nobody = String::from("nobody");

    assert_eq!(runtime.block_number(), 0);
    assert_eq!(runtime.balance(&nobody), 0);
    assert_eq!(runtime.nonce(&nobody), 0);
    assert_eq!(runtime.get_claim(&nobody), None);
}

#[test]
fn set_balance_is_read_back() {
    let mut runtime = Runtime::new();
    let alice = String::from("alice");

    runtime.set_balance(alice.clone(), 12345);
    assert_eq!(runtime.balance(&alice), 12345);
}

#[test]
fn dispatch_routes_to_balances() {
    let mut runtime = Runtime::new();
    let alice = String::from("alice");
    let bob = String::from("bob");

    runtime.set_balance(alice.clone(), 10);
    let call = RuntimeCall::Balances(BalancesCall::Transfer { to: bob.clone(), amount: 4 });
    assert_eq!(runtime.dispatch(&alice, call), Ok(()));
    assert_eq!(runtime.balance(&alice), 6);
    assert_eq!(runtime.balance(&bob), 4);
}

#[test]
fn empty_block_advances_height() {
    let mut runtime = Runtime::new();
    let block = Block { header: Header { block_number: 1 }, extrinsics: Vec::new() };

    let report = runtime.execute_block(block).expect("block 1 must apply");
    assert_eq!(report, Vec::new());
    assert_eq!(runtime.block_number(), 1);
}

#[test]
fn mismatched_header_rejects_block_but_height_advances() {
    let mut runtime = Runtime::new();
    let alice = String::from("alice");
    runtime.set_balance(alice.clone(), 100);

    let block = Block {
        header: Header { block_number: 5 },
        extrinsics: vec![transfer_ext("alice", "bob", 20)],
    };
    assert_eq!(runtime.execute_block(block), Err(ErrorKind::BlockNumberMismatch));

    // The height still advanced; nothing else changed.
    assert_eq!(runtime.block_number(), 1);
    assert_eq!(runtime.balance(&alice), 100);
    assert_eq!(runtime.nonce(&alice), 0);
}

#[test]
fn failed_extrinsic_is_contained_and_reported() {
    let mut runtime = Runtime::new();
    let alice = String::from("alice");
    let bob = String::from("bob");
    runtime.set_balance(alice.clone(), 30);

    let block = Block {
        header: Header { block_number: 1 },
        extrinsics: vec![
            transfer_ext("alice", "bob", 20),
            transfer_ext("alice", "bob", 20),
            transfer_ext("alice", "bob", 10),
        ],
    };
    let report = runtime.execute_block(block).expect("block 1 must apply");

    // The middle extrinsic failed, was reported, and the rest still ran.
    assert_eq!(
        report,
        vec![ExtrinsicFailure {
            block_number: 1,
            extrinsic_index: 1,
            error: ErrorKind::InsufficientFunds,
        }]
    );
    assert_eq!(runtime.balance(&alice), 0);
    assert_eq!(runtime.balance(&bob), 30);
    assert_eq!(runtime.nonce(&alice), 3);
}

#[test]
fn nonce_counts_extrinsics_across_blocks() {
    let mut runtime = Runtime::new();
    let alice = String::from("alice");
    let bob = String::from("bob");
    runtime.set_balance(alice.clone(), 10);

    let block_1 = Block {
        header: Header { block_number: 1 },
        extrinsics: vec![
            transfer_ext("alice", "bob", 5),
            transfer_ext("alice", "bob", 100),  // fails, nonce still advances
        ],
    };
    let block_2 = Block {
        header: Header { block_number: 2 },
        extrinsics: vec![transfer_ext("alice", "bob", 1), transfer_ext("bob", "alice", 2)],
    };
    runtime.execute_block(block_1).expect("block 1 must apply");
    runtime.execute_block(block_2).expect("block 2 must apply");

    assert_eq!(runtime.nonce(&alice), 3);
    assert_eq!(runtime.nonce(&bob), 1);
}

#[test]
fn end_to_end_scenario() {
    let mut runtime = Runtime::new();
    let alice = String::from("alice");
    let bob = String::from("bob");
    let charlie = String::from("charlie");
    let claim = String::from("Hello, world!");

    runtime.set_balance(alice.clone(), 100);

    let block_1 = Block {
        header: Header { block_number: 1 },
        extrinsics: vec![transfer_ext("alice", "bob", 20), transfer_ext("alice", "charlie", 20)],
    };
    let block_2 = Block {
        header: Header { block_number: 2 },
        extrinsics: vec![
            create_claim_ext("alice", "Hello, world!"),
            create_claim_ext("bob", "Hello, world!"),
        ],
    };
    let block_3 = Block {
        header: Header { block_number: 3 },
        extrinsics: vec![
            revoke_claim_ext("alice", "Hello, world!"),
            create_claim_ext("bob", "Hello, world!"),
        ],
    };

    let report_1 = runtime.execute_block(block_1).expect("block 1 must apply");
    assert_eq!(report_1, Vec::new());
    assert_eq!(runtime.balance(&alice), 60);
    assert_eq!(runtime.balance(&bob), 20);
    assert_eq!(runtime.balance(&charlie), 20);

    let report_2 = runtime.execute_block(block_2).expect("block 2 must apply");
    assert_eq!(
        report_2,
        vec![ExtrinsicFailure {
            block_number: 2,
            extrinsic_index: 1,
            error: ErrorKind::ClaimAlreadyExists,
        }]
    );
    assert_eq!(runtime.get_claim(&claim), Some(alice.clone()));

    let report_3 = runtime.execute_block(block_3).expect("block 3 must apply");
    assert_eq!(report_3, Vec::new());

    assert_eq!(runtime.balance(&alice), 60);
    assert_eq!(runtime.balance(&bob), 20);
    assert_eq!(runtime.balance(&charlie), 20);
    assert_eq!(runtime.get_claim(&claim), Some(bob.clone()));
    assert_eq!(runtime.block_number(), 3);
    assert_eq!(runtime.nonce(&alice), 4);
    assert_eq!(runtime.nonce(&bob), 2);
}
