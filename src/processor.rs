use vstd::prelude::*;
use crate::error::CounterError;
use crate::instruction::{unpacked, CounterInstruction};
use crate::state::{decoded, encoded, is_encoding, CounterAccount, COUNTER_SPACE};

verus! {

/// An account handed to an invocation: its address, the program that owns it,
/// and its storage.
#[derive(Debug, Clone)]
pub struct Account {
    pub key: [u8; 32],
    pub owner: [u8; 32],
    pub data: Vec<u8>,
}

/// Whether two addresses are the same.
pub fn same_address(a: &[u8; 32], b: &[u8; 32]) -> (r: bool)
    ensures
        r == (a@ == b@),
{
    let mut i: usize = 0;
    while i < 32
        invariant
            0 <= i <= 32,
            a@.len() == 32,
            b@.len() == 32,
            forall|j: int| 0 <= j < i ==> a@[j] == b@[j],
        decreases 32 - i,
    {
        if a[i] != b[i] {
            return false;
        }
        i = i + 1;
    }
    proof {
        assert(a@ =~= b@);
    }
    true
}

/// What incrementing a counter stored in `data`, in an account owned by
/// `owner`, yields for the program `program_id`: the new count, or the failure.
pub open spec fn increment_outcome(program_id: Seq<u8>, owner: Seq<u8>, data: Seq<u8>) -> Result<
    u64,
    CounterError,
> {
    if owner != program_id {
        Err(CounterError::IncorrectProgramId)
    } else if !is_encoding(data) {
        Err(CounterError::InvalidAccountData)
    } else if decoded(data) == u64::MAX {
        Err(CounterError::InvalidAccountData)
    } else {
        Ok((decoded(data) + 1) as u64)
    }
}

/// `after` is `before` with its storage replaced by `data`.
pub open spec fn with_data(after: Account, before: Account, data: Seq<u8>) -> bool {
    &&& after.key == before.key
    &&& after.owner == before.owner
    &&& after.data@ == data
}

/// The accounts of `after` are those of `before`, but for the first, whose
/// storage is now `data`.
pub open spec fn first_storage_set(after: Seq<Account>, before: Seq<Account>, data: Seq<u8>) -> bool {
    &&& before.len() > 0
    &&& after.len() == before.len()
    &&& with_data(after[0], before[0], data)
    &&& forall|i: int| 1 <= i < after.len() ==> after[i] == before[i]
}

/// Applies `IncrementCounter` to `accounts`, whose first entry is the counter
/// account; further entries are ignored. Returns the new count.
pub fn process_increment_counter(program_id: &[u8; 32], accounts: &mut Vec<Account>) -> (r: Result<
    u64,
    CounterError,
>)
    ensures
        old(accounts)@.len() == 0 ==> r == Err::<u64, CounterError>(
            CounterError::NotEnoughAccountKeys,
        ),
        old(accounts)@.len() > 0 ==> r == increment_outcome(
            program_id@,
            old(accounts)@[0].owner@,
            old(accounts)@[0].data@,
        ),
        r is Err ==> final(accounts)@ == old(accounts)@,
        r matches Ok(n) ==> first_storage_set(final(accounts)@, old(accounts)@, encoded(n)),
{
    if accounts.len() == 0 {
        return Err(CounterError::NotEnoughAccountKeys);
    }
    if !same_address(&accounts[0].owner, program_id) {
        return Err(CounterError::IncorrectProgramId);
    }
    let state = CounterAccount::try_from_slice(accounts[0].data.as_slice())?;
    let next = match state.count.checked_add(1) {
        Some(count) => CounterAccount { count },
        None => return Err(CounterError::InvalidAccountData),
    };
    accounts[0].data = next.pack();
    Ok(next.count)
}

/// The account-creation request that initializing a counter hands to the host:
/// `payer` funds a new account at `target` with `lamports`, `space` bytes of
/// storage, owned by `owner`.
#[derive(Debug, Clone, Copy, PartialEq, Eq)]
pub struct CreateAccount {
    pub payer: [u8; 32],
    pub target: [u8; 32],
    pub lamports: u64,
    pub space: u64,
    pub owner: [u8; 32],
}

/// An `InitializeCounter` command whose accounts were checked. The host then
/// prices `COUNTER_SPACE` bytes of storage, creates the account as
/// `create_request` asks, and lets `store` write the first state into it.
#[derive(Debug, Clone, Copy, PartialEq, Eq)]
pub struct InitializeFlow {
    pub program_id: [u8; 32],
    pub target: [u8; 32],
    pub payer: [u8; 32],
    pub initial_value: u64,
}

impl InitializeFlow {
    /// Takes the accounts of `InitializeCounter`: the counter account, the
    /// payer and the system program, in this order; further entries are ignored.
    pub fn start(program_id: &[u8; 32], accounts: &Vec<Account>, initial_value: u64) -> (r: Result<
        InitializeFlow,
        CounterError,
    >)
        ensures
            r is Ok <==> accounts@.len() >= 3,
            r is Err ==> r == Err::<InitializeFlow, CounterError>(
                CounterError::NotEnoughAccountKeys,
            ),
            r matches Ok(f) ==> {
                &&& f.program_id == *program_id
                &&& f.target == accounts@[0].key
                &&& f.payer == accounts@[1].key
                &&& f.initial_value == initial_value
            },
    {
        if accounts.len() < 3 {
            return Err(CounterError::NotEnoughAccountKeys);
        }
        Ok(
            InitializeFlow {
                program_id: *program_id,
                target: accounts[0].key,
                payer: accounts[1].key,
                initial_value,
            },
        )
    }

    /// The request that creates the counter account, funded by the payer with
    /// `minimum_balance`, the host's price of `COUNTER_SPACE` bytes.
    pub fn create_request(&self, minimum_balance: u64) -> (r: CreateAccount)
        ensures
            r == (CreateAccount {
                payer: self.payer,
                target: self.target,
                lamports: minimum_balance,
                space: COUNTER_SPACE,
                owner: self.program_id,
            }),
    {
        CreateAccount {
            payer: self.payer,
            target: self.target,
            lamports: minimum_balance,
            space: COUNTER_SPACE,
            owner: self.program_id,
        }
    }

    /// Writes the first state into the created account's storage: its first
    /// eight bytes become the stored form of `initial_value`. Storage shorter
    /// than that is refused and left as it was.
    pub fn store(&self, counter: &mut Account) -> (r: Result<(), CounterError>)
        ensures
            r is Ok <==> old(counter).data@.len() >= COUNTER_SPACE,
            r is Err ==> r == Err::<(), CounterError>(CounterError::InvalidAccountData)
                && *final(counter) == *old(counter),
            r is Ok ==> with_data(
                *final(counter),
                *old(counter),
                encoded(self.initial_value) + old(counter).data@.subrange(
                    COUNTER_SPACE as int,
                    old(counter).data@.len() as int,
                ),
            ),
    {
        if counter.data.len() < 8 {
            return Err(CounterError::InvalidAccountData);
        }
        let mut bytes = CounterAccount { count: self.initial_value }.pack();
        let len = counter.data.len();
        let mut i: usize = 8;
        while i < len
            invariant
                8 <= i <= len,
                len == counter.data@.len(),
                bytes@.len() == i,
                bytes@ == encoded(self.initial_value) + counter.data@.subrange(8, i as int),
            decreases len - i,
        {
            bytes.push(counter.data[i]);
            i = i + 1;
            proof {
                assert(bytes@ =~= encoded(self.initial_value) + counter.data@.subrange(8, i as int));
            }
        }
        counter.data = bytes;
        Ok(())
    }
}

/// What is left to do once the instruction has been decoded and, for an
/// increment, applied.
#[derive(Debug, Clone, Copy, PartialEq, Eq)]
pub enum Processed {
    /// The counter now holds `count`.
    Incremented { count: u64 },
    /// The host has to create and fill the counter account along `flow`.
    Initialize { flow: InitializeFlow },
}

/// Decodes `instruction_data` and carries out the command on `accounts`, as
/// far as it can go without the host.
pub fn process_instruction(
    program_id: &[u8; 32],
    accounts: &mut Vec<Account>,
    instruction_data: &[u8],
) -> (r: Result<Processed, CounterError>)
    ensures
        unpacked(instruction_data@) matches Err(e) ==> r == Err::<Processed, CounterError>(e)
            && final(accounts)@ == old(accounts)@,
        unpacked(instruction_data@) matches Ok(CounterInstruction::InitializeCounter {
            initial_value,
        }) ==> {
            &&& final(accounts)@ == old(accounts)@
            &&& r is Ok <==> old(accounts)@.len() >= 3
            &&& r is Err ==> r == Err::<Processed, CounterError>(
                CounterError::NotEnoughAccountKeys,
            )
            &&& r matches Ok(p) ==> p == (Processed::Initialize {
                flow: InitializeFlow {
                    program_id: *program_id,
                    target: old(accounts)@[0].key,
                    payer: old(accounts)@[1].key,
                    initial_value,
                },
            })
        },
        unpacked(instruction_data@) matches Ok(CounterInstruction::IncrementCounter) ==> {
            &&& old(accounts)@.len() == 0 ==> r == Err::<Processed, CounterError>(
                CounterError::NotEnoughAccountKeys,
            )
            &&& old(accounts)@.len() > 0 ==> match increment_outcome(
                program_id@,
                old(accounts)@[0].owner@,
                old(accounts)@[0].data@,
            ) {
                Ok(n) => r == Ok::<Processed, CounterError>(Processed::Incremented { count: n })
                    && first_storage_set(final(accounts)@, old(accounts)@, encoded(n)),
                Err(e) => r == Err::<Processed, CounterError>(e) && final(accounts)@ == old(
                    accounts,
                )@,
            }
        },
{
    let instruction = CounterInstruction::unpack(instruction_data)?;
    match instruction {
        CounterInstruction::InitializeCounter { initial_value } => {
            let flow = InitializeFlow::start(program_id, accounts, initial_value)?;
            Ok(Processed::Initialize { flow })
        },
        CounterInstruction::IncrementCounter => {
            let count = process_increment_counter(program_id, accounts)?;
            Ok(Processed::Incremented { count })
        },
    }
}

} // verus!
