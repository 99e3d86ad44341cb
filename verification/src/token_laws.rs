//! What holds of the token contract across its operations.

use vstd::prelude::*;
use crate::token::{RsTokenContractView, TokenError, TokenEventView};

verus! {

/// The token contract can be initialized once: a second `init`, with any
/// certificate contract, is refused with `AlreadyInitialized`.
pub proof fn init_succeeds_once(v: RsTokenContractView, first: Seq<u8>, second: Seq<u8>)
    requires
        v.certificate_contract is None,
    ensures
        v.init(first) is Ok,
        v.init(first)->Ok_0.certificate_contract == Some(first),
        v.init(first)->Ok_0.init(second) == Err::<RsTokenContractView, TokenError>(
            TokenError::AlreadyInitialized,
        ),
{
}

/// A successful mint adds exactly `amount` to the minted balance and leaves
/// every other (student, token id) balance as it was.
pub proof fn mint_adds_to_that_balance_only(
    v: RsTokenContractView,
    caller: Seq<u8>,
    student: Seq<u8>,
    token_id: u32,
    amount: i128,
    other_student: Seq<u8>,
    other_token_id: u32,
)
    requires
        v.mint(caller, student, token_id, amount) is Ok,
        v.balance_of(student, token_id) + amount <= i128::MAX,
    ensures
        ({
            let after = v.mint(caller, student, token_id, amount)->Ok_0;
            &&& after.balance_of(student, token_id) == v.balance_of(student, token_id) + amount
            &&& (other_student != student || other_token_id != token_id) ==> after.balance_of(
                other_student,
                other_token_id,
            ) == v.balance_of(other_student, other_token_id)
            &&& after.certificate_contract == v.certificate_contract
        }),
{
}

/// Only the configured certificate contract may mint, and only a positive
/// amount; a refused mint is answered with the reason.
pub proof fn mint_refusals(
    v: RsTokenContractView,
    caller: Seq<u8>,
    student: Seq<u8>,
    token_id: u32,
    amount: i128,
)
    ensures
        v.certificate_contract != Some(caller) ==> v.mint(caller, student, token_id, amount)
            == Err::<RsTokenContractView, TokenError>(TokenError::NotAuthorized),
        v.certificate_contract == Some(caller) && amount <= 0 ==> v.mint(
            caller,
            student,
            token_id,
            amount,
        ) == Err::<RsTokenContractView, TokenError>(TokenError::InvalidAmount),
{
}

/// Minting keeps every stored balance positive, so no balance is ever
/// negative.
pub proof fn balances_stay_positive(
    v: RsTokenContractView,
    caller: Seq<u8>,
    student: Seq<u8>,
    token_id: u32,
    amount: i128,
    any_student: Seq<u8>,
    any_token_id: u32,
)
    requires
        v.balances_positive(),
        v.balance_of(student, token_id) + amount <= i128::MAX,
    ensures
        v.balance_of(any_student, any_token_id) >= 0,
        v.mint(caller, student, token_id, amount) matches Ok(after) ==> after.balances_positive(),
{
}

/// A batch query answers, for each index, the balance of that student for
/// that token id; lists of different lengths get an empty answer.
pub proof fn batch_pairs_by_index(
    v: RsTokenContractView,
    students: Seq<Seq<u8>>,
    token_ids: Seq<u32>,
)
    ensures
        students.len() != token_ids.len() ==> v.balance_of_batch(students, token_ids).len() == 0,
        students.len() == token_ids.len() ==> {
            &&& v.balance_of_batch(students, token_ids).len() == students.len()
            &&& forall|i: int|
                0 <= i < students.len() ==> #[trigger] v.balance_of_batch(students, token_ids)[i]
                    == v.balance_of(students[i], token_ids[i])
        },
{
}

/// The owner can be set once: a second `init_owner`, with any address, is
/// refused with `AlreadyInitialized`.
pub proof fn owner_is_set_once(v: RsTokenContractView, first: Seq<u8>, second: Seq<u8>)
    requires
        v.owner is None,
    ensures
        v.init_owner(first) is Ok,
        v.init_owner(first)->Ok_0.owner == Some(first),
        v.init_owner(first)->Ok_0.init_owner(second) == Err::<RsTokenContractView, TokenError>(
            TokenError::AlreadyInitialized,
        ),
{
}

/// A successful burn takes exactly `amount` from the burned balance, removes
/// the entry when it reaches zero, leaves every other balance as it was,
/// and emits one `Burned` event.
pub proof fn burn_takes_from_that_balance_only(
    v: RsTokenContractView,
    caller: Seq<u8>,
    student: Seq<u8>,
    token_id: u32,
    amount: i128,
    other_student: Seq<u8>,
    other_token_id: u32,
)
    requires
        v.burn(caller, student, token_id, amount) is Ok,
    ensures
        ({
            let after = v.burn(caller, student, token_id, amount)->Ok_0;
            &&& after.balance_of(student, token_id) == v.balance_of(student, token_id) - amount
            &&& after.balance_of(student, token_id) == 0 ==> !after.balances.contains_key(
                (student, token_id),
            )
            &&& (other_student != student || other_token_id != token_id) ==> after.balance_of(
                other_student,
                other_token_id,
            ) == v.balance_of(other_student, other_token_id)
            &&& after.events == v.events.push(
                TokenEventView::Burned { burner: caller, student, token_id, amount },
            )
        }),
{
}

/// Only the owner or the student may burn, only a positive amount, and no
/// more than the balance; a refused burn is answered with the reason.
pub proof fn burn_refusals(
    v: RsTokenContractView,
    caller: Seq<u8>,
    student: Seq<u8>,
    token_id: u32,
    amount: i128,
)
    ensures
        v.owner != Some(caller) && caller != student ==> v.burn(caller, student, token_id, amount)
            == Err::<RsTokenContractView, TokenError>(TokenError::NotAuthorized),
        (v.owner == Some(caller) || caller == student) && amount <= 0 ==> v.burn(
            caller,
            student,
            token_id,
            amount,
        ) == Err::<RsTokenContractView, TokenError>(TokenError::InvalidAmount),
        (v.owner == Some(caller) || caller == student) && 0 < amount && amount > v.balance_of(
            student,
            token_id,
        ) ==> v.burn(caller, student, token_id, amount) == Err::<RsTokenContractView, TokenError>(
            TokenError::InsufficientBalance,
        ),
{
}

/// Burning keeps every stored balance positive.
pub proof fn burn_keeps_balances_positive(
    v: RsTokenContractView,
    caller: Seq<u8>,
    student: Seq<u8>,
    token_id: u32,
    amount: i128,
)
    requires
        v.balances_positive(),
    ensures
        v.burn(caller, student, token_id, amount) matches Ok(after) ==> after.balances_positive(),
{
}

/// Burning what was just minted, by the student, gives back the balance
/// that was there before the mint.
pub proof fn burn_undoes_mint(
    v: RsTokenContractView,
    caller: Seq<u8>,
    student: Seq<u8>,
    token_id: u32,
    amount: i128,
)
    requires
        v.balances_positive(),
        v.mint(caller, student, token_id, amount) is Ok,
        v.balance_of(student, token_id) + amount <= i128::MAX,
    ensures
        ({
            let minted = v.mint(caller, student, token_id, amount)->Ok_0;
            &&& minted.burn(student, student, token_id, amount) matches Ok(after)
            &&& after.balances == v.balances
        }),
{
    let minted = v.mint(caller, student, token_id, amount)->Ok_0;
    let after = minted.burn(student, student, token_id, amount)->Ok_0;
    assert(after.balances =~= v.balances);
}

/// The balance of a pair is what is stored for it, and 0 where nothing is
/// stored.
pub proof fn balance_of_reads_storage(v: RsTokenContractView, student: Seq<u8>, token_id: u32)
    ensures
        v.balances.contains_key((student, token_id)) ==> v.balance_of(student, token_id)
            == v.balances[(student, token_id)],
        !v.balances.contains_key((student, token_id)) ==> v.balance_of(student, token_id) == 0,
{
}

/// `init` and `init_owner` succeed exactly when their address is unset, and
/// then set it and nothing else.
pub proof fn inits_succeed_exactly_when_unset(v: RsTokenContractView, address: Seq<u8>)
    ensures
        v.init(address) is Ok <==> v.certificate_contract is None,
        v.init(address) matches Ok(after) ==> after == (RsTokenContractView {
            certificate_contract: Some(address),
            ..v
        }),
        v.init_owner(address) is Ok <==> v.owner is None,
        v.init_owner(address) matches Ok(after) ==> after == (RsTokenContractView {
            owner: Some(address),
            ..v
        }),
{
}

/// A mint succeeds exactly when the caller is the certificate contract and
/// the amount is positive, whatever the amount's size; the minted balance
/// then holds the old balance plus the amount.
pub proof fn mint_succeeds_exactly_for_certificate_contract_and_positive_amount(
    v: RsTokenContractView,
    caller: Seq<u8>,
    student: Seq<u8>,
    token_id: u32,
    amount: i128,
)
    requires
        v.balance_of(student, token_id) + amount <= i128::MAX,
    ensures
        v.mint(caller, student, token_id, amount) is Ok <==> (v.certificate_contract == Some(
            caller,
        ) && amount > 0),
        v.mint(caller, student, token_id, amount) matches Ok(after) ==> {
            &&& after.balances.contains_key((student, token_id))
            &&& after.balances[(student, token_id)] == (if v.balances.contains_key(
                (student, token_id),
            ) {
                v.balances[(student, token_id)]
            } else {
                0
            }) + amount
            &&& after.certificate_contract == v.certificate_contract
            &&& after.owner == v.owner
            &&& after.events == v.events
        },
{
}

/// A burn succeeds exactly when the caller is the owner or the student and
/// the amount is positive and at most the balance; the burned balance then
/// holds the old balance less the amount, its entry gone when that is zero.
pub proof fn burn_succeeds_exactly_for_owner_or_student_within_balance(
    v: RsTokenContractView,
    caller: Seq<u8>,
    student: Seq<u8>,
    token_id: u32,
    amount: i128,
)
    ensures
        v.burn(caller, student, token_id, amount) is Ok <==> ((v.owner == Some(caller) || caller
            == student) && 0 < amount && amount <= v.balance_of(student, token_id)),
        v.burn(caller, student, token_id, amount) matches Ok(after) ==> {
            &&& amount < v.balance_of(student, token_id) ==> {
                &&& after.balances.contains_key((student, token_id))
                &&& after.balances[(student, token_id)] == v.balance_of(student, token_id) - amount
            }
            &&& amount == v.balance_of(student, token_id) ==> !after.balances.contains_key(
                (student, token_id),
            )
            &&& after.certificate_contract == v.certificate_contract
            &&& after.owner == v.owner
        },
{
}

} // verus!
