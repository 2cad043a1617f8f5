//! Finds the token mints in a batch of decoded transactions.

use crate::address::standardize_address;
use crate::address::standardized;
use vstd::prelude::*;
use vstd::string::StringExecFns;

verus! {

/// Module of the contract that holds the mint function.
pub const MODULE_NAME: &'static str = "summits_token";

/// Name of the mint function inside that module.
pub const MINT_FUNCTION: &'static str = "mint";

/// Resource type whose creation marks a new token.
pub const TOKEN_RESOURCE_TYPE: &'static str = "0x4::token::Token";

/// A module, named by the account that published it.
#[derive(Clone, Debug)]
pub struct MoveModuleId {
    pub address: String,
    pub name: String,
}

/// A function inside a module.
#[derive(Clone, Debug)]
pub struct EntryFunctionId {
    pub module: Option<MoveModuleId>,
    pub name: String,
}

/// What a transaction asks the chain to run.
#[derive(Clone, Debug)]
pub enum Payload {
    /// A call of an entry function; the function may be missing from a
    /// badly decoded transaction.
    EntryFunction { function: Option<EntryFunctionId> },
    /// Any other kind of payload.
    Other,
}

/// The envelope of a payload.
#[derive(Clone, Debug)]
pub struct TransactionPayload {
    pub payload: Option<Payload>,
}

/// What a user signed.
#[derive(Clone, Debug)]
pub struct UserTransactionRequest {
    pub payload: Option<TransactionPayload>,
}

/// The body of a transaction, by kind.
#[derive(Clone, Debug)]
pub enum TxnData {
    /// Submitted by a user.
    User { request: Option<UserTransactionRequest> },
    /// Produced by the chain itself.
    Other,
}

/// One effect of a transaction on chain state.
#[derive(Clone, Debug)]
pub enum Change {
    /// A resource of type `type_str` was written under `address`.
    WriteResource { address: String, type_str: String },
    /// Any other kind of change.
    Other,
}

/// An entry of a transaction's write set.
#[derive(Clone, Debug)]
pub struct WriteSetChange {
    pub change: Option<Change>,
}

/// The outcome of a transaction.
#[derive(Clone, Debug)]
pub struct TransactionInfo {
    pub success: bool,
    pub changes: Vec<WriteSetChange>,
}

/// A decoded transaction, reduced to what the filter reads.
#[derive(Clone, Debug)]
pub struct Transaction {
    pub version: u64,
    pub info: Option<TransactionInfo>,
    pub txn_data: Option<TxnData>,
}

/// A field that every well-formed transaction carries is missing.
#[derive(Clone, Copy, Debug, PartialEq, Eq, Structural)]
pub enum MalformedTransaction {
    NoTxnData,
    NoRequest,
    NoPayload,
    NoFunction,
}

/// A token that was minted, and the stream version that minted it.
#[derive(Clone, Debug)]
pub struct MintEvent {
    pub token_address: String,
    pub stream_version: u64,
}

/// A mint event as a value: the canonical address and the version.
pub struct MintEventView {
    pub token_address: Seq<char>,
    pub stream_version: u64,
}

impl View for MintEvent {
    type V = MintEventView;

    open spec fn view(&self) -> MintEventView {
        MintEventView { token_address: self.token_address@, stream_version: self.stream_version }
    }
}

/// Which contract's mints the processor follows.
#[derive(Clone, Debug)]
pub struct SummitsProcessorConfig {
    pub contract_address: String,
}

/// Whether two function identifiers name the same function: same module, or
/// both without one, and the same function name.
pub open spec fn same_function(a: EntryFunctionId, b: EntryFunctionId) -> bool {
    &&& a.name@ == b.name@
    &&& a.module is Some <==> b.module is Some
    &&& a.module is Some ==> {
        &&& a.module->0.address@ == b.module->0.address@
        &&& a.module->0.name@ == b.module->0.name@
    }
}

/// Whether `f` is the mint function of the contract at `contract`.
pub open spec fn is_mint_function(f: EntryFunctionId, contract: Seq<char>) -> bool {
    &&& f.name@ == MINT_FUNCTION@
    &&& f.module is Some
    &&& f.module->0.address@ == contract
    &&& f.module->0.name@ == MODULE_NAME@
}

/// The entry function that a transaction calls: `Ok(None)` when it is not a
/// user transaction or carries another kind of payload, an error when a
/// field on the way to the function is missing.
pub open spec fn called_function(t: Transaction) -> Result<
    Option<EntryFunctionId>,
    MalformedTransaction,
> {
    match t.txn_data {
        None => Err(MalformedTransaction::NoTxnData),
        Some(TxnData::Other) => Ok(None),
        Some(TxnData::User { request: None }) => Err(MalformedTransaction::NoRequest),
        Some(TxnData::User { request: Some(request) }) => match request.payload {
            None => Err(MalformedTransaction::NoPayload),
            Some(envelope) => match envelope.payload {
                None => Err(MalformedTransaction::NoPayload),
                Some(Payload::Other) => Ok(None),
                Some(Payload::EntryFunction { function: None }) => Err(
                    MalformedTransaction::NoFunction,
                ),
                Some(Payload::EntryFunction { function: Some(f) }) => Ok(Some(f)),
            },
        },
    }
}

/// Whether a change writes a token resource.
pub open spec fn is_token_write(c: WriteSetChange) -> bool {
    match c.change {
        Some(Change::WriteResource { address, type_str }) => type_str@ == TOKEN_RESOURCE_TYPE@,
        _ => false,
    }
}

/// The address that a resource write goes to.
pub open spec fn written_address(c: WriteSetChange) -> Seq<char> {
    match c.change {
        Some(Change::WriteResource { address, type_str }) => address@,
        _ => Seq::empty(),
    }
}

/// Whether `changes[i]` is a token write and no earlier change is one.
pub open spec fn is_first_token_write(changes: Seq<WriteSetChange>, i: int) -> bool {
    &&& 0 <= i < changes.len()
    &&& is_token_write(changes[i])
    &&& forall|j: int| 0 <= j < i ==> !is_token_write(#[trigger] changes[j])
}

/// The canonical address of the first token resource that the changes
/// write, if they write any.
pub open spec fn minted_address(changes: Seq<WriteSetChange>) -> Option<Seq<char>> {
    if exists|i: int| is_first_token_write(changes, i) {
        let i = choose|i: int| is_first_token_write(changes, i);
        Some(standardized(written_address(changes[i])))
    } else {
        None
    }
}

/// The token that a transaction mints for the contract at `contract`.
///
/// A transaction that is known to have failed mints nothing, whatever else
/// it holds. Otherwise its call target is looked up, which fails on a
/// malformed transaction; a call of anything but the contract's mint
/// function mints nothing; and a mint call mints the first token resource
/// among its changes, or nothing if there is none.
pub open spec fn token_minted(t: Transaction, contract: Seq<char>) -> Result<
    Option<Seq<char>>,
    MalformedTransaction,
> {
    if t.info is Some && !t.info->0.success {
        Ok(None)
    } else {
        match called_function(t) {
            Err(e) => Err(e),
            Ok(None) => Ok(None),
            Ok(Some(f)) => if !is_mint_function(f, contract) {
                Ok(None)
            } else if t.info is None {
                Ok(None)
            } else {
                Ok(minted_address(t.info->0.changes@))
            },
        }
    }
}

/// The mint events of a batch, in the order of its transactions. The first
/// malformed transaction fails the whole batch.
pub open spec fn mint_events(txns: Seq<Transaction>, contract: Seq<char>) -> Result<
    Seq<MintEventView>,
    MalformedTransaction,
>
    decreases txns.len(),
{
    if txns.len() == 0 {
        Ok(Seq::empty())
    } else {
        match mint_events(txns.drop_last(), contract) {
            Err(e) => Err(e),
            Ok(events) => match token_minted(txns.last(), contract) {
                Err(e) => Err(e),
                Ok(None) => Ok(events),
                Ok(Some(address)) => Ok(
                    events.push(
                        MintEventView {
                            token_address: address,
                            stream_version: txns.last().version,
                        },
                    ),
                ),
            },
        }
    }
}

/// The mint events of a batch when malformed transactions are passed over
/// instead of failing it, and the versions of those that were passed over,
/// both in the order of the transactions.
pub open spec fn mint_events_skipping(txns: Seq<Transaction>, contract: Seq<char>) -> (
    Seq<MintEventView>,
    Seq<u64>,
)
    decreases txns.len(),
{
    if txns.len() == 0 {
        (Seq::empty(), Seq::empty())
    } else {
        let before = mint_events_skipping(txns.drop_last(), contract);
        match token_minted(txns.last(), contract) {
            Err(_) => (before.0, before.1.push(txns.last().version)),
            Ok(None) => before,
            Ok(Some(address)) => (
                before.0.push(
                    MintEventView { token_address: address, stream_version: txns.last().version },
                ),
                before.1,
            ),
        }
    }
}

/// The events of a list, each as a value.
pub open spec fn event_views(events: Seq<MintEvent>) -> Seq<MintEventView> {
    events.map_values(|e: MintEvent| e@)
}

fn same_module(a: &Option<MoveModuleId>, b: &Option<MoveModuleId>) -> (same: bool)
    ensures
        same == ((a is Some <==> b is Some) && (a is Some ==> a->0.address@ == b->0.address@
            && a->0.name@ == b->0.name@)),
{
    match (a, b) {
        (None, None) => true,
        (Some(x), Some(y)) => x.address == y.address && x.name == y.name,
        _ => false,
    }
}

/// Whether `transaction` calls exactly the entry function `entry_function_id`.
///
/// `Ok(false)` for a transaction that is not a user transaction or carries
/// another kind of payload; an error for one with a missing request, payload
/// or function.
pub fn entry_function_id_matches(
    transaction: &Transaction,
    entry_function_id: &EntryFunctionId,
) -> (matches: Result<bool, MalformedTransaction>)
    ensures
        matches == match called_function(*transaction) {
            Err(e) => Err::<bool, MalformedTransaction>(e),
            Ok(None) => Ok(false),
            Ok(Some(f)) => Ok(same_function(f, *entry_function_id)),
        },
{
    let request = match &transaction.txn_data {
        None => { return Err(MalformedTransaction::NoTxnData); },
        Some(TxnData::Other) => { return Ok(false); },
        Some(TxnData::User { request: None }) => { return Err(MalformedTransaction::NoRequest); },
        Some(TxnData::User { request: Some(request) }) => request,
    };
    let envelope = match &request.payload {
        None => { return Err(MalformedTransaction::NoPayload); },
        Some(envelope) => envelope,
    };
    let function_id = match &envelope.payload {
        None => { return Err(MalformedTransaction::NoPayload); },
        Some(Payload::Other) => { return Ok(false); },
        Some(Payload::EntryFunction { function: None }) => {
            return Err(MalformedTransaction::NoFunction);
        },
        Some(Payload::EntryFunction { function: Some(f) }) => f,
    };
    Ok(
        function_id.name == entry_function_id.name && same_module(
            &function_id.module,
            &entry_function_id.module,
        ),
    )
}

/// The first token resource written by `changes`, as a canonical address.
pub fn first_token_address(changes: &Vec<WriteSetChange>) -> (address: Option<String>)
    ensures
        address is Some <==> minted_address(changes@) is Some,
        address is Some ==> address->0@ == minted_address(changes@)->0,
{
    let token_type = String::from_str(TOKEN_RESOURCE_TYPE);
    let mut i: usize = 0;
    while i < changes.len()
        invariant
            i <= changes@.len(),
            token_type@ == TOKEN_RESOURCE_TYPE@,
            forall|j: int| 0 <= j < i ==> !is_token_write(#[trigger] changes@[j]),
        decreases changes@.len() - i,
    {
        match &changes[i].change {
            Some(Change::WriteResource { address, type_str }) => {
                if *type_str == token_type {
                    proof {
                        assert(is_first_token_write(changes@, i as int));
                        let k = choose|k: int| is_first_token_write(changes@, k);
                        assert(k == i) by {
                            if k < i {
                                assert(!is_token_write(changes@[k]));
                            } else if i < k {
                                assert(!is_token_write(changes@[i as int]));
                            }
                        }
                    }
                    return Some(standardize_address(address.as_str()));
                }
            },
            _ => {},
        }
        i += 1;
    }
    proof {
        assert forall|k: int| !is_first_token_write(changes@, k) by {
            if 0 <= k < changes@.len() {
                assert(!is_token_write(changes@[k]));
            }
        }
    }
    None
}

impl SummitsProcessorConfig {
    /// The function whose calls are mints: `mint` in the token module of the
    /// configured contract.
    pub fn mint_function_id(&self) -> (id: EntryFunctionId)
        ensures
            is_mint_function(id, self.contract_address@),
    {
        EntryFunctionId {
            module: Some(
                MoveModuleId {
                    address: self.contract_address.clone(),
                    name: String::from_str(MODULE_NAME),
                },
            ),
            name: String::from_str(MINT_FUNCTION),
        }
    }

    /// The token address to render for `transaction`, if it is a mint of the
    /// configured contract that created a token resource.
    ///
    /// Whether the transaction succeeded is not looked at here; see
    /// [`Self::token_to_write`] for the rule that includes it.
    pub fn get_tokens_to_write(&self, transaction: &Transaction) -> (token: Result<
        Option<String>,
        MalformedTransaction,
    >)
        ensures
            match called_function(*transaction) {
                Err(e) => token == Err::<Option<String>, MalformedTransaction>(e),
                Ok(None) => token == Ok::<Option<String>, MalformedTransaction>(None),
                Ok(Some(f)) => if is_mint_function(f, self.contract_address@)
                    && transaction.info is Some {
                    &&& token is Ok
                    &&& token->Ok_0 is Some <==> minted_address(
                        transaction.info->0.changes@,
                    ) is Some
                    &&& token->Ok_0 is Some ==> token->Ok_0->0@ == minted_address(
                        transaction.info->0.changes@,
                    )->0
                } else {
                    token == Ok::<Option<String>, MalformedTransaction>(None)
                },
            },
    {
        let target = self.mint_function_id();
        match entry_function_id_matches(transaction, &target) {
            Err(e) => Err(e),
            Ok(false) => Ok(None),
            Ok(true) => match &transaction.info {
                None => Ok(None),
                Some(info) => Ok(first_token_address(&info.changes)),
            },
        }
    }

    /// The token address to render for `transaction`: nothing for a failed
    /// transaction, otherwise what [`Self::get_tokens_to_write`] finds.
    pub fn token_to_write(&self, transaction: &Transaction) -> (token: Result<
        Option<String>,
        MalformedTransaction,
    >)
        ensures
            token is Err <==> token_minted(*transaction, self.contract_address@) is Err,
            token is Err ==> token->Err_0 == token_minted(
                *transaction,
                self.contract_address@,
            )->Err_0,
            token is Ok ==> {
                let minted = token_minted(*transaction, self.contract_address@)->Ok_0;
                &&& token->Ok_0 is Some <==> minted is Some
                &&& token->Ok_0 is Some ==> token->Ok_0->0@ == minted->0
            },
    {
        if let Some(info) = &transaction.info {
            if !info.success {
                return Ok(None);
            }
        }
        self.get_tokens_to_write(transaction)
    }

    /// The mint events of a batch, in transaction order, each with the
    /// canonical address of the token and the version that minted it. The
    /// first malformed transaction fails the batch and nothing is returned
    /// for it.
    pub fn extract_mint_events(&self, transactions: &Vec<Transaction>) -> (events: Result<
        Vec<MintEvent>,
        MalformedTransaction,
    >)
        ensures
            events is Err <==> mint_events(transactions@, self.contract_address@) is Err,
            events is Err ==> events->Err_0 == mint_events(
                transactions@,
                self.contract_address@,
            )->Err_0,
            events is Ok ==> event_views(events->Ok_0@) == mint_events(
                transactions@,
                self.contract_address@,
            )->Ok_0,
    {
        let mut events: Vec<MintEvent> = Vec::new();
        let mut i: usize = 0;
        assert(transactions@.take(0) =~= Seq::empty());
        assert(event_views(events@) =~= Seq::empty());
        while i < transactions.len()
            invariant
                i <= transactions@.len(),
                mint_events(transactions@.take(i as int), self.contract_address@) == Ok::<
                    Seq<MintEventView>,
                    MalformedTransaction,
                >(event_views(events@)),
            decreases transactions@.len() - i,
        {
            let ghost prefix = transactions@.take(i as int + 1);
            proof {
                assert(prefix.drop_last() =~= transactions@.take(i as int));
                assert(prefix.last() == transactions@[i as int]);
            }
            match self.token_to_write(&transactions[i]) {
                Err(e) => {
                    proof {
                        lemma_error_persists(
                            transactions@,
                            self.contract_address@,
                            i as int + 1,
                        );
                    }
                    return Err(e);
                },
                Ok(None) => {},
                Ok(Some(token_address)) => {
                    let ghost before = events@;
                    let event = MintEvent {
                        token_address,
                        stream_version: transactions[i].version,
                    };
                    events.push(event);
                    assert(event_views(events@) =~= event_views(before).push(event@));
                },
            }
            i += 1;
        }
        assert(transactions@.take(i as int) =~= transactions@);
        Ok(events)
    }
}

impl SummitsProcessorConfig {
    /// The mint events of a batch as [`Self::extract_mint_events`] finds
    /// them, except that a malformed transaction is passed over and the
    /// batch goes on. The second list holds the versions of the
    /// transactions that were passed over, for the caller to log.
    pub fn extract_mint_events_skipping(&self, transactions: &Vec<Transaction>) -> (found: (
        Vec<MintEvent>,
        Vec<u64>,
    ))
        ensures
            event_views(found.0@) == mint_events_skipping(
                transactions@,
                self.contract_address@,
            ).0,
            found.1@ == mint_events_skipping(transactions@, self.contract_address@).1,
    {
        let mut events: Vec<MintEvent> = Vec::new();
        let mut skipped: Vec<u64> = Vec::new();
        let mut i: usize = 0;
        assert(transactions@.take(0) =~= Seq::empty());
        assert(event_views(events@) =~= Seq::empty());
        while i < transactions.len()
            invariant
                i <= transactions@.len(),
                event_views(events@) == mint_events_skipping(
                    transactions@.take(i as int),
                    self.contract_address@,
                ).0,
                skipped@ == mint_events_skipping(
                    transactions@.take(i as int),
                    self.contract_address@,
                ).1,
            decreases transactions@.len() - i,
        {
            let ghost prefix = transactions@.take(i as int + 1);
            proof {
                assert(prefix.drop_last() =~= transactions@.take(i as int));
                assert(prefix.last() == transactions@[i as int]);
            }
            match self.token_to_write(&transactions[i]) {
                Err(_) => {
                    skipped.push(transactions[i].version);
                },
                Ok(None) => {},
                Ok(Some(token_address)) => {
                    let ghost before = events@;
                    let event = MintEvent {
                        token_address,
                        stream_version: transactions[i].version,
                    };
                    events.push(event);
                    assert(event_views(events@) =~= event_views(before).push(event@));
                },
            }
            i += 1;
        }
        assert(transactions@.take(i as int) =~= transactions@);
        (events, skipped)
    }
}

/// On a batch without a malformed transaction, passing over and failing
/// come to the same: the same events, and nothing passed over.
pub proof fn lemma_skipping_agrees_on_sound_batches(txns: Seq<Transaction>, contract: Seq<char>)
    requires
        mint_events(txns, contract) is Ok,
    ensures
        mint_events_skipping(txns, contract) == (
            mint_events(txns, contract)->Ok_0,
            Seq::<u64>::empty(),
        ),
    decreases txns.len(),
{
    if txns.len() > 0 {
        lemma_skipping_agrees_on_sound_batches(txns.drop_last(), contract);
    }
}

/// A batch whose prefix fails, fails with the same error.
pub proof fn lemma_error_persists(txns: Seq<Transaction>, contract: Seq<char>, n: int)
    requires
        0 <= n <= txns.len(),
        mint_events(txns.take(n), contract) is Err,
    ensures
        mint_events(txns, contract) == mint_events(txns.take(n), contract),
    decreases txns.len() - n,
{
    if n == txns.len() {
        assert(txns.take(n) =~= txns);
    } else {
        let next = txns.take(n + 1);
        assert(next.drop_last() =~= txns.take(n));
        lemma_error_persists(txns, contract, n + 1);
    }
}

} // verus!
