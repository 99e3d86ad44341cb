//! The RS-Token contract: non-transferable reward tokens that only the
//! configured certificate contract may mint and that the owner or the
//! student may burn, one balance per (student, token id) pair.

use vstd::prelude::*;
use crate::bytes::{bytes_equal, copy_bytes};
use crate::certificate::byte_strings;
use crate::store::{Store, StoreKey};

verus! {

/// Why the token contract refuses a request.
#[derive(Clone, Copy, Debug, PartialEq, Eq)]
pub enum TokenError {
    AlreadyInitialized,
    NotAuthorized,
    InvalidAmount,
    InsufficientBalance,
}

impl TokenError {
    /// The contract error code under which the error is reported.
    pub fn code(&self) -> (code: u32)
        ensures
            code == match self {
                TokenError::AlreadyInitialized => 1u32,
                TokenError::NotAuthorized => 2u32,
                TokenError::InvalidAmount => 3u32,
                TokenError::InsufficientBalance => 5u32,
            },
    {
        match self {
            TokenError::AlreadyInitialized => 1,
            TokenError::NotAuthorized => 2,
            TokenError::InvalidAmount => 3,
            TokenError::InsufficientBalance => 5,
        }
    }
}

/// Storage key of one balance: a student and a token id.
pub struct BalanceKey {
    pub student: Vec<u8>,
    pub token_id: u32,
}

impl View for BalanceKey {
    type V = (Seq<u8>, u32);

    open spec fn view(&self) -> (Seq<u8>, u32) {
        (self.student@, self.token_id)
    }
}

impl StoreKey for BalanceKey {
    fn same_key(&self, other: &Self) -> (same: bool) {
        self.token_id == other.token_id && bytes_equal(&self.student, &other.student)
    }
}

/// An event emitted by the token contract.
#[derive(Clone, Debug, PartialEq, Eq)]
pub enum TokenEvent {
    /// Topics `Burned`, `burner`, `student`, `token_id`, `amount`; data the
    /// burning caller, the student, the token id and the amount.
    Burned { burner: Vec<u8>, student: Vec<u8>, token_id: u32, amount: i128 },
}

pub enum TokenEventView {
    Burned { burner: Seq<u8>, student: Seq<u8>, token_id: u32, amount: i128 },
}

impl View for TokenEvent {
    type V = TokenEventView;

    open spec fn view(&self) -> TokenEventView {
        match self {
            TokenEvent::Burned { burner, student, token_id, amount } => TokenEventView::Burned {
                burner: burner@,
                student: student@,
                token_id: *token_id,
                amount: *amount,
            },
        }
    }
}

/// The views of a sequence of token events.
pub open spec fn token_event_views(v: Seq<TokenEvent>) -> Seq<TokenEventView> {
    v.map_values(|e: TokenEvent| e@)
}

/// What the token contract's instance storage holds, and the events emitted so far.
pub struct RsTokenContractView {
    pub certificate_contract: Option<Seq<u8>>,
    pub owner: Option<Seq<u8>>,
    pub balances: Map<(Seq<u8>, u32), i128>,
    pub events: Seq<TokenEventView>,
}

impl RsTokenContractView {
    /// No certificate contract or owner configured, no balances and no events.
    pub open spec fn empty() -> Self {
        RsTokenContractView {
            certificate_contract: None,
            owner: None,
            balances: Map::empty(),
            events: Seq::empty(),
        }
    }

    /// Every stored balance is positive.
    pub open spec fn balances_positive(self) -> bool {
        forall|k: (Seq<u8>, u32)| #[trigger]
            self.balances.contains_key(k) ==> self.balances[k] > 0
    }

    /// The balance of `student` for `token_id`; 0 where nothing is stored.
    pub open spec fn balance_of(self, student: Seq<u8>, token_id: u32) -> i128 {
        if self.balances.contains_key((student, token_id)) {
            self.balances[(student, token_id)]
        } else {
            0
        }
    }

    /// Setting the certificate contract, which is allowed once.
    pub open spec fn init(self, certificate_contract: Seq<u8>) -> Result<Self, TokenError> {
        if self.certificate_contract is Some {
            Err(TokenError::AlreadyInitialized)
        } else {
            Ok(RsTokenContractView { certificate_contract: Some(certificate_contract), ..self })
        }
    }

    /// Minting `amount` tokens of `token_id` to `student` on behalf of `caller`:
    /// only the certificate contract may mint, and only a positive amount.
    /// Its domain is the requests whose new balance fits in an `i128`; on
    /// the others the contract panics and this says nothing.
    pub open spec fn mint(self, caller: Seq<u8>, student: Seq<u8>, token_id: u32, amount: i128) -> Result<
        Self,
        TokenError,
    >
        recommends
            self.certificate_contract == Some(caller) && amount > 0 ==> self.balance_of(
                student,
                token_id,
            ) + amount <= i128::MAX,
    {
        if self.certificate_contract != Some(caller) {
            Err(TokenError::NotAuthorized)
        } else if amount <= 0 {
            Err(TokenError::InvalidAmount)
        } else {
            Ok(
                RsTokenContractView {
                    balances: self.balances.insert(
                        (student, token_id),
                        (self.balance_of(student, token_id) + amount) as i128,
                    ),
                    ..self
                },
            )
        }
    }

    /// Setting the owner, who may burn any student's tokens; allowed once.
    pub open spec fn init_owner(self, owner: Seq<u8>) -> Result<Self, TokenError> {
        if self.owner is Some {
            Err(TokenError::AlreadyInitialized)
        } else {
            Ok(RsTokenContractView { owner: Some(owner), ..self })
        }
    }

    /// Burning `amount` tokens of `token_id` from `student` on behalf of
    /// `caller`: only the owner or the student may burn, only a positive
    /// amount, and no more than the balance. A balance that reaches zero is
    /// removed, and a `Burned` event is emitted.
    pub open spec fn burn(self, caller: Seq<u8>, student: Seq<u8>, token_id: u32, amount: i128) -> Result<
        Self,
        TokenError,
    > {
        if !(self.owner == Some(caller) || caller == student) {
            Err(TokenError::NotAuthorized)
        } else if amount <= 0 {
            Err(TokenError::InvalidAmount)
        } else if amount > self.balance_of(student, token_id) {
            Err(TokenError::InsufficientBalance)
        } else {
            let rest = self.balance_of(student, token_id) - amount;
            Ok(
                RsTokenContractView {
                    balances: if rest == 0 {
                        self.balances.remove((student, token_id))
                    } else {
                        self.balances.insert((student, token_id), rest as i128)
                    },
                    events: self.events.push(
                        TokenEventView::Burned { burner: caller, student, token_id, amount },
                    ),
                    ..self
                },
            )
        }
    }

    /// The balances of `students[i]` for `token_ids[i]`, paired by index;
    /// empty where the two lists differ in length.
    pub open spec fn balance_of_batch(self, students: Seq<Seq<u8>>, token_ids: Seq<u32>) -> Seq<
        i128,
    > {
        if students.len() != token_ids.len() {
            Seq::empty()
        } else {
            Seq::new(students.len(), |i: int| self.balance_of(students[i], token_ids[i]))
        }
    }
}

/// The RS-Token contract, over its instance storage.
pub struct RsTokenContract {
    certificate_contract: Option<Vec<u8>>,
    owner: Option<Vec<u8>>,
    balances: Store<BalanceKey, i128>,
    events: Vec<TokenEvent>,
}

impl View for RsTokenContract {
    type V = RsTokenContractView;

    closed spec fn view(&self) -> RsTokenContractView {
        RsTokenContractView {
            certificate_contract: match self.certificate_contract {
                Some(a) => Some(a@),
                None => None,
            },
            owner: match self.owner {
                Some(a) => Some(a@),
                None => None,
            },
            balances: self.balances@,
            events: token_event_views(self.events@),
        }
    }
}

impl RsTokenContract {
    /// The balances are stored consistently, and every one is positive.
    pub closed spec fn wf(&self) -> bool {
        &&& self.balances.wf()
        &&& self@.balances_positive()
    }

    /// A token contract with empty storage and no events.
    pub fn new() -> (c: Self)
        ensures
            c.wf(),
            c@ == RsTokenContractView::empty(),
    {
        let c = RsTokenContract {
            certificate_contract: None,
            owner: None,
            balances: Store::new(),
            events: Vec::new(),
        };
        assert(token_event_views(c.events@) =~= Seq::empty());
        c
    }

    /// Stores the certificate contract address allowed to mint RS-Tokens.
    pub fn init(&mut self, certificate_contract: Vec<u8>) -> (r: Result<(), TokenError>)
        requires
            old(self).wf(),
        ensures
            final(self).wf(),
            match old(self)@.init(certificate_contract@) {
                Ok(next) => r is Ok && final(self)@ == next,
                Err(e) => r == Err::<(), TokenError>(e) && final(self)@ == old(self)@,
            },
    {
        if self.certificate_contract.is_some() {
            return Err(TokenError::AlreadyInitialized);
        }
        self.certificate_contract = Some(certificate_contract);
        Ok(())
    }

    /// Gets the balance of a specific token ID for a student.
    pub fn get_balance(&self, student: &Vec<u8>, token_id: u32) -> (balance: i128)
        requires
            self.wf(),
        ensures
            balance == self@.balance_of(student@, token_id),
            balance >= 0,
    {
        let key = BalanceKey { student: copy_bytes(student), token_id };
        match self.balances.get(&key) {
            Some(b) => {
                assert(self@.balances.contains_key(key@));
                *b
            },
            None => 0,
        }
    }

    /// Mints non-transferable RS-Tokens to a student for a specific token ID.
    /// Only the configured certificate contract address may call this.
    pub fn mint(&mut self, caller: &Vec<u8>, student: &Vec<u8>, token_id: u32, amount: i128) -> (r:
        Result<(), TokenError>)
        requires
            old(self).wf(),
            old(self)@.certificate_contract is Some,
            old(self)@.certificate_contract == Some(caller@) && amount > 0 ==> old(self)@.balance_of(
                student@,
                token_id,
            ) + amount <= i128::MAX,
        ensures
            final(self).wf(),
            match old(self)@.mint(caller@, student@, token_id, amount) {
                Ok(next) => r is Ok && final(self)@ == next,
                Err(e) => r == Err::<(), TokenError>(e) && final(self)@ == old(self)@,
            },
    {
        let authorized = match &self.certificate_contract {
            Some(cc) => bytes_equal(caller, cc),
            None => false,
        };
        if !authorized {
            return Err(TokenError::NotAuthorized);
        }
        if amount <= 0 {
            return Err(TokenError::InvalidAmount);
        }
        let current = self.get_balance(student, token_id);
        let key = BalanceKey { student: copy_bytes(student), token_id };
        self.balances.set(key, current + amount);
        Ok(())
    }

    /// Gets the balances of multiple token IDs for multiple students in a
    /// batch, in the same order as the input; empty where the two lists
    /// differ in length.
    pub fn balance_of_batch(&self, students: &Vec<Vec<u8>>, token_ids: &Vec<u32>) -> (balances: Vec<
        i128,
    >)
        requires
            self.wf(),
        ensures
            balances@ == self@.balance_of_batch(byte_strings(students@), token_ids@),
    {
        let student_count = students.len();
        let token_id_count = token_ids.len();
        let mut balances: Vec<i128> = Vec::new();
        if student_count != token_id_count {
            assert(balances@ =~= self@.balance_of_batch(byte_strings(students@), token_ids@));
            return balances;
        }
        let mut i: usize = 0;
        while i < student_count
            invariant
                self.wf(),
                student_count == students@.len(),
                student_count == token_ids@.len(),
                i <= student_count,
                balances@.len() == i,
                forall|j: int|
                    0 <= j < i ==> #[trigger] balances@[j] == self@.balance_of(
                        students@[j]@,
                        token_ids@[j],
                    ),
            decreases student_count - i,
        {
            let balance = self.get_balance(&students[i], token_ids[i]);
            balances.push(balance);
            i = i + 1;
        }
        assert(balances@ =~= self@.balance_of_batch(byte_strings(students@), token_ids@));
        balances
    }

    /// Stores the owner address, which may burn any student's tokens.
    /// Allowed once.
    pub fn init_owner(&mut self, owner: Vec<u8>) -> (r: Result<(), TokenError>)
        requires
            old(self).wf(),
        ensures
            final(self).wf(),
            match old(self)@.init_owner(owner@) {
                Ok(next) => r is Ok && final(self)@ == next,
                Err(e) => r == Err::<(), TokenError>(e) && final(self)@ == old(self)@,
            },
    {
        if self.owner.is_some() {
            return Err(TokenError::AlreadyInitialized);
        }
        self.owner = Some(owner);
        Ok(())
    }

    /// Burns RS-Tokens of a student for a specific token ID, reducing the
    /// balance and removing it when it reaches zero. Only the owner or the
    /// student may burn; a `Burned` event is emitted.
    pub fn burn(&mut self, caller: &Vec<u8>, student: &Vec<u8>, token_id: u32, amount: i128) -> (r:
        Result<(), TokenError>)
        requires
            old(self).wf(),
        ensures
            final(self).wf(),
            match old(self)@.burn(caller@, student@, token_id, amount) {
                Ok(next) => r is Ok && final(self)@ == next,
                Err(e) => r == Err::<(), TokenError>(e) && final(self)@ == old(self)@,
            },
    {
        let is_owner = match &self.owner {
            Some(owner) => bytes_equal(caller, owner),
            None => false,
        };
        if !is_owner && !bytes_equal(caller, student) {
            return Err(TokenError::NotAuthorized);
        }
        if amount <= 0 {
            return Err(TokenError::InvalidAmount);
        }
        let current = self.get_balance(student, token_id);
        if amount > current {
            return Err(TokenError::InsufficientBalance);
        }
        let rest = current - amount;
        let key = BalanceKey { student: copy_bytes(student), token_id };
        if rest == 0 {
            self.balances.remove(&key);
        } else {
            self.balances.set(key, rest);
        }
        let ghost before_events = self.events@;
        self.events.push(
            TokenEvent::Burned { burner: copy_bytes(caller), student: copy_bytes(student), token_id, amount },
        );
        proof {
            assert(self.events@ =~= before_events.push(self.events@.last()));
            assert(token_event_views(self.events@) =~= token_event_views(before_events).push(
                self.events@.last()@,
            ));
            let goal = old(self)@.burn(caller@, student@, token_id, amount);
            assert(goal is Ok);
            assert(self@ =~= goal->Ok_0);
        }
        Ok(())
    }

    /// The events emitted so far, oldest first.
    pub fn events(&self) -> (events: &Vec<TokenEvent>)
        ensures
            token_event_views(events@) == self@.events,
    {
        &self.events
    }

    /// Puts back a balance entry read from instance storage.
    pub fn load_balance(&mut self, student: Vec<u8>, token_id: u32, amount: i128)
        requires
            old(self).wf(),
            amount > 0,
        ensures
            final(self).wf(),
            final(self)@ == (RsTokenContractView {
                balances: old(self)@.balances.insert((student@, token_id), amount),
                ..old(self)@
            }),
    {
        let key = BalanceKey { student, token_id };
        self.balances.set(key, amount);
    }
}

} // verus!
