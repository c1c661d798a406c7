//! Queries that read a ledger: one transaction, one block, one balance.
//! A query that does not reach the ledger is tried again, three times in
//! all.

use crate::big_nat::BigNat;
use crate::ckusdc_canister_interface::{GetBlocksRequest, Transaction};
use crate::currency_error::CurrencyError;
use crate::principal::PrincipalId;
use crate::remote::{is_unexpected, unexpected_event, CallStage, Event, RemoteCall, Step};
use vstd::prelude::*;
use vstd::string::StringExecFns;

verus! {

/// How often a query is tried, at most.
pub const QUERY_ATTEMPTS: u8 = 3;

/// Where a query that may be tried again stands.
#[derive(Debug, Clone, Copy, PartialEq, Eq, Structural)]
pub enum RetryStage {
    /// Nothing was asked yet.
    Start,
    /// The ledger was asked, for the `attempt`-th time.
    Awaiting { attempt: u8 },
    /// The ledger named the archive that holds the block; the archive was
    /// asked.
    AwaitingArchive,
    /// The query has given its result.
    Finished,
}

/// Whether `step` asks `ledger` for the one transaction at `block_index`.
pub open spec fn is_transaction_query<T>(step: Step<T>, ledger: PrincipalId, block_index: u64) -> bool {
    &&& step matches Step::Call(RemoteCall::GetTransactions { ledger: asked, args })
    &&& asked == ledger
    &&& args.start@ == block_index
    &&& args.length@ == 1
}

/// What a step of the query for the transaction at `block_index` must give
/// as `next`: the first transaction that the ledger returns, or none. A
/// query that does not reach the ledger is tried again, and fails at the
/// third time.
pub open spec fn reads_transaction(
    ledger: PrincipalId,
    block_index: u64,
    stage: RetryStage,
    event: Event,
    next: (RetryStage, Step<Option<Transaction>>),
) -> bool {
    match (stage, event) {
        (RetryStage::Start, Event::Started) => {
            &&& next.0 == RetryStage::Awaiting { attempt: 1 }
            &&& is_transaction_query(next.1, ledger, block_index)
        },
        (RetryStage::Awaiting { attempt }, Event::Rejected(detail)) => if attempt < QUERY_ATTEMPTS {
            &&& next.0 == RetryStage::Awaiting { attempt: (attempt + 1) as u8 }
            &&& is_transaction_query(next.1, ledger, block_index)
        } else {
            &&& next.0 == RetryStage::Finished
            &&& next.1 matches Step::Done(Err(CurrencyError::QueryError(text)))
            &&& text@ == "Error querying transactions: "@ + detail@
        },
        (RetryStage::Awaiting { attempt }, Event::Transactions(transactions)) => {
            &&& next.0 == RetryStage::Finished
            &&& next.1 matches Step::Done(Ok(found))
            &&& if transactions@.len() == 0 {
                found is None
            } else {
                found == Some(transactions@[0])
            }
        },
        _ => next.0 == RetryStage::Finished && is_unexpected(next.1),
    }
}

/// The query for the one transaction at `block_index`.
fn transaction_query<T>(ledger: PrincipalId, block_index: u64) -> (step: Step<T>)
    ensures
        is_transaction_query(step, ledger, block_index),
{
    Step::Call(
        RemoteCall::GetTransactions {
            ledger,
            args: GetBlocksRequest {
                start: BigNat::from_u128(block_index as u128),
                length: BigNat::from_u128(1),
            },
        },
    )
}

/// One step of the query for the transaction at `block_index` on `ledger`.
pub fn get_one_block(ledger: PrincipalId, block_index: u64, stage: RetryStage, event: Event) -> (next:
    (RetryStage, Step<Option<Transaction>>))
    ensures
        reads_transaction(ledger, block_index, stage, event, next),
{
    match (stage, event) {
        (RetryStage::Start, Event::Started) => (
            RetryStage::Awaiting { attempt: 1 },
            transaction_query(ledger, block_index),
        ),
        (RetryStage::Awaiting { attempt }, Event::Rejected(detail)) => {
            if attempt < QUERY_ATTEMPTS {
                (
                    RetryStage::Awaiting { attempt: attempt + 1 },
                    transaction_query(ledger, block_index),
                )
            } else {
                (
                    RetryStage::Finished,
                    Step::Done(
                        Err(
                            CurrencyError::QueryError(
                                String::from_str("Error querying transactions: ").concat(
                                    detail.as_str(),
                                ),
                            ),
                        ),
                    ),
                )
            }
        },
        (RetryStage::Awaiting { attempt }, Event::Transactions(transactions)) => {
            let mut transactions = transactions;
            if transactions.len() == 0 {
                (RetryStage::Finished, Step::Done(Ok(None)))
            } else {
                let first = transactions.swap_remove(0);
                (RetryStage::Finished, Step::Done(Ok(Some(first))))
            }
        },
        _ => (RetryStage::Finished, Step::Done(Err(unexpected_event()))),
    }
}

/// One step of the query for what the account of `owner` under
/// `subaccount` holds on `ledger`.
pub fn get_balance(
    ledger: &PrincipalId,
    owner: &PrincipalId,
    subaccount: Option<Vec<u8>>,
    stage: CallStage,
    event: Event,
) -> (next: (CallStage, Step<u128>))
    ensures
        match (stage, event) {
            (CallStage::Start, Event::Started) => {
                &&& next.0 == CallStage::Awaiting
                &&& next.1 matches Step::Call(
                    RemoteCall::BalanceOfOwner { ledger: asked, owner: of, subaccount: under },
                )
                &&& asked == *ledger
                &&& of == *owner
                &&& under == subaccount
            },
            (CallStage::Awaiting, Event::Rejected(detail)) => {
                &&& next.0 == CallStage::Finished
                &&& next.1 matches Step::Done(Err(CurrencyError::LedgerError(text)))
                &&& text@ == detail@
            },
            (CallStage::Awaiting, Event::Balance(balance)) => {
                &&& next.0 == CallStage::Finished
                &&& next.1 == Step::Done(Ok(balance))
            },
            _ => next.0 == CallStage::Finished && is_unexpected(next.1),
        },
{
    match (stage, event) {
        (CallStage::Start, Event::Started) => (
            CallStage::Awaiting,
            Step::Call(RemoteCall::BalanceOfOwner { ledger: *ledger, owner: *owner, subaccount }),
        ),
        (CallStage::Awaiting, Event::Rejected(detail)) => (
            CallStage::Finished,
            Step::Done(Err(CurrencyError::LedgerError(detail))),
        ),
        (CallStage::Awaiting, Event::Balance(balance)) => (
            CallStage::Finished,
            Step::Done(Ok(balance)),
        ),
        _ => (CallStage::Finished, Step::Done(Err(unexpected_event()))),
    }
}

/// One range of blocks that a ledger has moved to an archive, and the
/// function of the archive that returns them.
#[derive(Debug, PartialEq, Eq)]
pub struct ArchivedBlockRange<F> {
    pub start: u64,
    pub length: u64,
    pub callback: F,
}

/// One call of a query for a block.
#[derive(Debug, PartialEq, Eq)]
pub enum BlockCall<F> {
    /// `query_blocks` on the ledger.
    QueryBlocks { ledger: PrincipalId, start: u64, length: u64 },
    /// The function of an archive that returns blocks.
    QueryArchivedBlocks { callback: F, start: u64, length: u64 },
}

/// What has just happened in a query for a block.
#[derive(Debug, PartialEq, Eq)]
pub enum BlockEvent<B, F> {
    /// The query begins.
    Started,
    /// The call did not reach the service. The text describes why.
    Rejected(String),
    /// The ledger's reply: the blocks it holds of those asked for, and the
    /// ranges it has archived.
    Blocks { blocks: Vec<B>, first_block_index: u64, archived_blocks: Vec<ArchivedBlockRange<F>> },
    /// The archive's reply: its blocks, or its error in its debug form.
    Archived(Result<Vec<B>, String>),
}

/// What a query for a block does next.
#[derive(Debug, PartialEq, Eq)]
pub enum BlockStep<B, F> {
    Call(BlockCall<F>),
    Done(Result<Option<B>, CurrencyError>),
}

/// Whether the archived range `range` holds the block at `block_index`.
pub open spec fn holds_block<F>(range: ArchivedBlockRange<F>, block_index: u64) -> bool {
    range.start <= block_index && block_index - range.start < range.length
}

/// The first of `ranges` that holds the block at `block_index`.
pub open spec fn first_range<F>(ranges: Seq<ArchivedBlockRange<F>>, block_index: u64) -> Option<
    ArchivedBlockRange<F>,
>
    decreases ranges.len(),
{
    if ranges.len() == 0 {
        None
    } else if holds_block(ranges[0], block_index) {
        Some(ranges[0])
    } else {
        first_range(ranges.drop_first(), block_index)
    }
}

/// Whether `step` asks `ledger` for the one block at `block_index`.
pub open spec fn is_block_query<B, F>(
    step: BlockStep<B, F>,
    ledger: PrincipalId,
    block_index: u64,
) -> bool {
    step == BlockStep::<B, F>::Call(
        BlockCall::QueryBlocks { ledger, start: block_index, length: 1 },
    )
}

/// Whether `step` fails with a query error whose text is `text`.
pub open spec fn is_query_error<B, F>(step: BlockStep<B, F>, text: Seq<char>) -> bool {
    &&& step matches BlockStep::Done(Err(CurrencyError::QueryError(message)))
    &&& message@ == text
}

/// The first of `blocks`, if there is one.
pub open spec fn first_block<B>(blocks: Seq<B>) -> Option<B> {
    if blocks.len() == 0 {
        None
    } else {
        Some(blocks[0])
    }
}

/// What a step of the query for the block at `block_index` must give as
/// `next`. The ledger is asked for the block, three times at most. What it
/// holds itself it returns. What it has archived it names the archive
/// for, which is then asked, once. A ledger that neither holds the block
/// nor names an archive is asked again, and after the third time the
/// query ends without a block.
pub open spec fn reads_block<B, F>(
    ledger: PrincipalId,
    block_index: u64,
    stage: RetryStage,
    event: BlockEvent<B, F>,
    next: (RetryStage, BlockStep<B, F>),
) -> bool {
    match (stage, event) {
        (RetryStage::Start, BlockEvent::Started) => {
            &&& next.0 == RetryStage::Awaiting { attempt: 1 }
            &&& is_block_query(next.1, ledger, block_index)
        },
        (RetryStage::Awaiting { attempt }, BlockEvent::Rejected(detail)) => if attempt
            < QUERY_ATTEMPTS {
            &&& next.0 == RetryStage::Awaiting { attempt: (attempt + 1) as u8 }
            &&& is_block_query(next.1, ledger, block_index)
        } else {
            &&& next.0 == RetryStage::Finished
            &&& is_query_error(next.1, "Error querying blocks: "@ + detail@)
        },
        (RetryStage::Awaiting { attempt }, BlockEvent::Blocks { blocks, archived_blocks, .. }) =>
            if blocks@.len() > 0 {
                &&& next.0 == RetryStage::Finished
                &&& next.1 == BlockStep::<B, F>::Done(Ok(Some(blocks@[0])))
            } else {
                match first_range(archived_blocks@, block_index) {
                    Some(range) => {
                        &&& next.0 == RetryStage::AwaitingArchive
                        &&& next.1 == BlockStep::<B, F>::Call(
                            BlockCall::QueryArchivedBlocks {
                                callback: range.callback,
                                start: block_index,
                                length: 1,
                            },
                        )
                    },
                    None => if attempt < QUERY_ATTEMPTS {
                        &&& next.0 == RetryStage::Awaiting { attempt: (attempt + 1) as u8 }
                        &&& is_block_query(next.1, ledger, block_index)
                    } else {
                        &&& next.0 == RetryStage::Finished
                        &&& next.1 == BlockStep::<B, F>::Done(Ok(None))
                    },
                }
            },
        (RetryStage::AwaitingArchive, BlockEvent::Archived(Ok(blocks))) => {
            &&& next.0 == RetryStage::Finished
            &&& next.1 == BlockStep::<B, F>::Done(Ok(first_block(blocks@)))
        },
        (RetryStage::AwaitingArchive, BlockEvent::Archived(Err(detail))) => {
            &&& next.0 == RetryStage::Finished
            &&& is_query_error(next.1, "Error querying archived blocks: "@ + detail@)
        },
        (RetryStage::AwaitingArchive, BlockEvent::Rejected(detail)) => {
            &&& next.0 == RetryStage::Finished
            &&& is_query_error(next.1, "Error querying archived blocks: "@ + detail@)
        },
        _ => {
            &&& next.0 == RetryStage::Finished
            &&& next.1 matches BlockStep::Done(Err(CurrencyError::CanisterCallFailed(text)))
            &&& text@ == crate::remote::unexpected_event_text()
        },
    }
}

/// The step that fails with a query error whose text is `head`, then
/// `detail`.
fn query_error<B, F>(head: &str, detail: &str) -> (step: BlockStep<B, F>)
    ensures
        is_query_error(step, head@ + detail@),
{
    BlockStep::Done(Err(CurrencyError::QueryError(String::from_str(head).concat(detail))))
}

/// The first of `blocks`, if there is one.
fn take_first<B>(blocks: Vec<B>) -> (first: Option<B>)
    ensures
        first == first_block(blocks@),
{
    let mut blocks = blocks;
    if blocks.len() == 0 {
        None
    } else {
        Some(blocks.swap_remove(0))
    }
}

/// The function of the archive that holds the block at `block_index`.
fn find_archive<F>(ranges: Vec<ArchivedBlockRange<F>>, block_index: u64) -> (callback: Option<F>)
    ensures
        match first_range(ranges@, block_index) {
            Some(range) => callback == Some(range.callback),
            None => callback is None,
        },
{
    let ghost all = ranges@;
    assert(all.skip(0) =~= all);
    for range in iter: ranges
        invariant
            iter.seq() == all,
            first_range(all, block_index) == first_range(
                all.skip(iter.index() as int),
                block_index,
            ),
    {
        proof {
            let i = iter.index() as int;
            let rest = all.skip(i);
            assert(rest[0] == all[i]);
            assert(rest.drop_first() =~= all.skip(i + 1));
        }
        if range.start <= block_index && block_index - range.start < range.length {
            return Some(range.callback);
        }
    }
    assert(all.skip(all.len() as int).len() == 0);
    None
}

/// One step of the query for the block at `block_index` on `ledger`.
pub fn query_one_block<B, F>(
    ledger: PrincipalId,
    block_index: u64,
    stage: RetryStage,
    event: BlockEvent<B, F>,
) -> (next: (RetryStage, BlockStep<B, F>))
    ensures
        reads_block(ledger, block_index, stage, event, next),
{
    let again = BlockStep::Call(BlockCall::QueryBlocks { ledger, start: block_index, length: 1 });
    match (stage, event) {
        (RetryStage::Start, BlockEvent::Started) => (RetryStage::Awaiting { attempt: 1 }, again),
        (RetryStage::Awaiting { attempt }, BlockEvent::Rejected(detail)) => {
            if attempt < QUERY_ATTEMPTS {
                (RetryStage::Awaiting { attempt: attempt + 1 }, again)
            } else {
                (RetryStage::Finished, query_error("Error querying blocks: ", detail.as_str()))
            }
        },
        (RetryStage::Awaiting { attempt }, BlockEvent::Blocks { blocks, archived_blocks, .. }) => {
            if blocks.len() > 0 {
                return (RetryStage::Finished, BlockStep::Done(Ok(take_first(blocks))));
            }
            match find_archive(archived_blocks, block_index) {
                Some(callback) => (
                    RetryStage::AwaitingArchive,
                    BlockStep::Call(
                        BlockCall::QueryArchivedBlocks { callback, start: block_index, length: 1 },
                    ),
                ),
                None => {
                    if attempt < QUERY_ATTEMPTS {
                        (RetryStage::Awaiting { attempt: attempt + 1 }, again)
                    } else {
                        (RetryStage::Finished, BlockStep::Done(Ok(None)))
                    }
                },
            }
        },
        (RetryStage::AwaitingArchive, BlockEvent::Archived(Ok(blocks))) => (
            RetryStage::Finished,
            BlockStep::Done(Ok(take_first(blocks))),
        ),
        (RetryStage::AwaitingArchive, BlockEvent::Archived(Err(detail))) => (
            RetryStage::Finished,
            query_error("Error querying archived blocks: ", detail.as_str()),
        ),
        (RetryStage::AwaitingArchive, BlockEvent::Rejected(detail)) => (
            RetryStage::Finished,
            query_error("Error querying archived blocks: ", detail.as_str()),
        ),
        _ => (RetryStage::Finished, BlockStep::Done(Err(unexpected_event()))),
    }
}

/// A query for a block asks the ledger three times at most: each step
/// that asks the ledger again counts one attempt more, and none counts
/// beyond three.
pub proof fn lemma_block_query_is_bounded<B, F>(
    ledger: PrincipalId,
    block_index: u64,
    stage: RetryStage,
    event: BlockEvent<B, F>,
    next: (RetryStage, BlockStep<B, F>),
)
    requires
        reads_block(ledger, block_index, stage, event, next),
        next.1 matches BlockStep::Call(BlockCall::QueryBlocks { .. }),
    ensures
        match stage {
            RetryStage::Start => next.0 == RetryStage::Awaiting { attempt: 1 },
            RetryStage::Awaiting { attempt } => attempt < QUERY_ATTEMPTS && next.0
                == RetryStage::Awaiting { attempt: (attempt + 1) as u8 },
            _ => false,
        },
{
}

} // verus!
