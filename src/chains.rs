use crate::utils::{amounts_balanced, total, validate_tx_amounts, MultisendInstruction};
use crate::utils::TransferInstruction;
use crate::Error;
use crate::Role;
use vstd::prelude::*;

pub mod solana;
pub mod terra;

verus! {

/// The network a chain is reached on.
#[derive(Clone, Copy, Debug, PartialEq, Eq, Structural)]
pub enum Network {
    Devnet,
    Mainnet,
}

/// `mainnet` names the main network; any other name falls back to the development network.
pub open spec fn network_of(name: Seq<char>) -> Network {
    if name == "mainnet"@ {
        Network::Mainnet
    } else {
        Network::Devnet
    }
}

impl Network {
    pub fn from_name(name: &str) -> (r: Network)
        ensures
            r == network_of(name@),
    {
        proof {
            reveal_strlit("mainnet");
        }
        if crate::text::same_text(name, "mainnet") {
            Network::Mainnet
        } else {
            Network::Devnet
        }
    }

    pub open spec fn solana_url(self) -> Seq<char> {
        match self {
            Network::Mainnet => "https://api.mainnet-beta.solana.com"@,
            Network::Devnet => "https://api.devnet.solana.com"@,
        }
    }

    /// The Solana RPC endpoint.
    pub fn solana_rpc_url(self) -> (r: &'static str)
        ensures
            r@ == self.solana_url(),
    {
        match self {
            Network::Mainnet => "https://api.mainnet-beta.solana.com",
            Network::Devnet => "https://api.devnet.solana.com",
        }
    }

    pub open spec fn terra_url(self) -> Seq<char> {
        match self {
            Network::Mainnet => "https://lcd.terra.dev"@,
            Network::Devnet => "https://bombay-lcd.terra.dev"@,
        }
    }

    pub open spec fn terra_chain(self) -> Seq<char> {
        match self {
            Network::Mainnet => "columbus-5"@,
            Network::Devnet => "bombay-12"@,
        }
    }

    /// The Terra LCD endpoint and the chain id served there.
    pub fn terra_lcd(self) -> (r: (&'static str, &'static str))
        ensures
            r.0@ == self.terra_url(),
            r.1@ == self.terra_chain(),
    {
        match self {
            Network::Mainnet => ("https://lcd.terra.dev", "columbus-5"),
            Network::Devnet => ("https://bombay-lcd.terra.dev", "bombay-12"),
        }
    }
}

/// The chains this library drives.
#[derive(Clone, Copy, Debug, PartialEq, Eq, Structural)]
pub enum ChainKind {
    Solana,
    Terra,
}

/// `kind` accepts `a` as an account address.
pub open spec fn address_ok(kind: ChainKind, a: Seq<char>) -> bool {
    match kind {
        ChainKind::Solana => solana::solana_address_ok(a),
        ChainKind::Terra => terra::terra_address_ok(a),
    }
}

/// An amount in billionths of a coin, in the base unit of `kind`.
pub open spec fn base_units(kind: ChainKind, amount: u64) -> nat {
    match kind {
        ChainKind::Solana => solana::lamports_of(amount),
        ChainKind::Terra => terra::micro_units_of(amount),
    }
}

pub fn address_is_valid(kind: ChainKind, a: &str) -> (r: bool)
    ensures
        r == address_ok(kind, a@),
{
    match kind {
        ChainKind::Solana => solana::parse_pubkey(a).is_some(),
        ChainKind::Terra => terra::is_terra_account(a),
    }
}

pub fn to_base_units(kind: ChainKind, amount: u64) -> (r: u64)
    ensures
        r == base_units(kind, amount),
{
    match kind {
        ChainKind::Solana => solana::to_lamports(amount),
        ChainKind::Terra => terra::to_micro_units(amount),
    }
}

/// A blockchain that instructions can be checked and sent against.
pub trait Chain: Sized {
    /// Which rules of address and unit the chain follows.
    spec fn kind(&self) -> ChainKind;

    spec fn network_name(&self) -> Seq<char>;

    /// The same chain, on `network`.
    fn new(&self, network: String) -> (r: Self)
        ensures
            r.network_name() == network@,
    ;

    /// Parses every recipient address, then every sender address, and stops at the first
    /// that the chain refuses.
    fn validate_addrs(&self, data: &MultisendInstruction) -> (r: Result<(), Error>)
        ensures
            addresses_outcome(self.kind(), *data, r),
    ;

    /// Compares each sender's amount, in base units, with `balances`, its available balance.
    fn validate_balance(&self, data: &MultisendInstruction, balances: &Vec<u64>) -> (r: Result<
        (),
        Error,
    >)
        requires
            balances@.len() == data.senders@.len(),
        ensures
            balances_outcome(self.kind(), *data, balances@, r),
    ;
}

/// The first `upto` entries of `s` hold addresses that `c` accepts.
pub open spec fn addresses_ok_upto(kind: ChainKind, s: Seq<TransferInstruction>, upto: int) -> bool {
    forall|j: int| 0 <= j < upto ==> #[trigger] address_ok(kind, s[j].address@)
}

pub open spec fn addresses_valid(kind: ChainKind, data: MultisendInstruction) -> bool {
    &&& addresses_ok_upto(kind, data.recipients@, data.recipients@.len() as int)
    &&& addresses_ok_upto(kind, data.senders@, data.senders@.len() as int)
}

pub open spec fn role_entries(data: MultisendInstruction, role: Role) -> Seq<TransferInstruction> {
    match role {
        Role::Recipient => data.recipients@,
        Role::Sender => data.senders@,
    }
}

/// `e` reports the first refused address: recipients are checked before senders.
pub open spec fn first_bad_address(kind: ChainKind, data: MultisendInstruction, e: Error) -> bool {
    match e {
        Error::InvalidAddress { address, role, index } => {
            let s = role_entries(data, role);
            &&& index < s.len()
            &&& address == s[index as int].address
            &&& !address_ok(kind, address@)
            &&& addresses_ok_upto(kind, s, index as int)
            &&& role == Role::Sender ==> addresses_ok_upto(
                kind,
                data.recipients@,
                data.recipients@.len() as int,
            )
        },
        _ => false,
    }
}

pub open spec fn addresses_outcome(
    kind: ChainKind,
    data: MultisendInstruction,
    r: Result<(), Error>,
) -> bool {
    &&& r is Ok <==> addresses_valid(kind, data)
    &&& r is Err ==> first_bad_address(kind, data, r->Err_0)
}

/// Sender `i` can afford its amount.
pub open spec fn sender_covered(
    kind: ChainKind,
    data: MultisendInstruction,
    balances: Seq<u64>,
    i: int,
) -> bool {
    base_units(kind, data.senders@[i].amount) <= balances[i]
}

/// Sender `i` is the first that cannot afford its amount, and `e` reports it.
pub open spec fn first_uncovered(
    kind: ChainKind,
    data: MultisendInstruction,
    balances: Seq<u64>,
    i: int,
    e: Error,
) -> bool {
    &&& 0 <= i < data.senders@.len()
    &&& forall|j: int| 0 <= j < i ==> #[trigger] sender_covered(kind, data, balances, j)
    &&& !sender_covered(kind, data, balances, i)
    &&& e == (Error::InsufficientBalance {
        address: data.senders@[i].address,
        required: base_units(kind, data.senders@[i].amount) as u64,
        available: balances[i],
    })
}

pub open spec fn balances_outcome(
    kind: ChainKind,
    data: MultisendInstruction,
    balances: Seq<u64>,
    r: Result<(), Error>,
) -> bool {
    &&& r is Ok <==> forall|i: int|
        0 <= i < data.senders@.len() ==> #[trigger] sender_covered(kind, data, balances, i)
    &&& r is Err ==> exists|i: int| first_uncovered(kind, data, balances, i, r->Err_0)
}

fn first_bad_in(kind: ChainKind, s: &Vec<TransferInstruction>) -> (r: Option<usize>)
    ensures
        match r {
            None => addresses_ok_upto(kind, s@, s@.len() as int),
            Some(i) => i < s@.len() && !address_ok(kind, s@[i as int].address@) && addresses_ok_upto(
                kind,
                s@,
                i as int,
            ),
        },
{
    let mut i: usize = 0;
    while i < s.len()
        invariant
            i <= s@.len(),
            addresses_ok_upto(kind, s@, i as int),
        decreases s@.len() - i,
    {
        if !address_is_valid(kind, s[i].address.as_str()) {
            return Some(i);
        }
        i = i + 1;
    }
    None
}

/// Address check shared by every chain.
pub fn check_addresses(kind: ChainKind, data: &MultisendInstruction) -> (r: Result<(), Error>)
    ensures
        addresses_outcome(kind, *data, r),
{
    match first_bad_in(kind, &data.recipients) {
        Some(i) => {
            return Err(
                Error::InvalidAddress {
                    address: data.recipients[i].address.clone(),
                    role: Role::Recipient,
                    index: i,
                },
            );
        },
        None => {},
    }
    match first_bad_in(kind, &data.senders) {
        Some(i) => Err(
            Error::InvalidAddress {
                address: data.senders[i].address.clone(),
                role: Role::Sender,
                index: i,
            },
        ),
        None => Ok(()),
    }
}

/// Balance check shared by every chain.
pub fn check_balances(kind: ChainKind, data: &MultisendInstruction, balances: &Vec<u64>) -> (r:
    Result<(), Error>)
    requires
        balances@.len() == data.senders@.len(),
    ensures
        balances_outcome(kind, *data, balances@, r),
{
    let mut i: usize = 0;
    while i < data.senders.len()
        invariant
            i <= data.senders@.len(),
            balances@.len() == data.senders@.len(),
            forall|j: int| 0 <= j < i ==> #[trigger] sender_covered(kind, *data, balances@, j),
        decreases data.senders@.len() - i,
    {
        let required = to_base_units(kind, data.senders[i].amount);
        if balances[i] < required {
            let e = Error::InsufficientBalance {
                address: data.senders[i].address.clone(),
                required,
                available: balances[i],
            };
            assert(!sender_covered(kind, *data, balances@, i as int));
            let r: Result<(), Error> = Err(e);
            assert(first_uncovered(kind, *data, balances@, i as int, r->Err_0));
            assert(r is Err);
            assert(!(forall|j: int|
                0 <= j < data.senders@.len() ==> #[trigger] sender_covered(kind, *data, balances@, j)));
            return r;
        }
        i = i + 1;
    }
    Ok(())
}

/// A Solana backend.
pub struct Solana {
    pub network: String,
}

/// A Terra backend with its fee settings.
pub struct Terra {
    pub network: String,
    /// Gas price, as the chain writes it (for instance `0.15uluna`).
    pub gas_price: String,
    /// Gas adjustment factor, as decimal text.
    pub gas_adjustment: String,
    pub memo: String,
}

impl Chain for Solana {
    open spec fn kind(&self) -> ChainKind {
        ChainKind::Solana
    }

    open spec fn network_name(&self) -> Seq<char> {
        self.network@
    }

    fn new(&self, network: String) -> (r: Solana)
        ensures
            r.network == network,
    {
        Solana { network }
    }

    fn validate_addrs(&self, data: &MultisendInstruction) -> (r: Result<(), Error>) {
        check_addresses(ChainKind::Solana, data)
    }

    fn validate_balance(&self, data: &MultisendInstruction, balances: &Vec<u64>) -> (r: Result<
        (),
        Error,
    >) {
        check_balances(ChainKind::Solana, data, balances)
    }
}

impl Chain for Terra {
    open spec fn kind(&self) -> ChainKind {
        ChainKind::Terra
    }

    open spec fn network_name(&self) -> Seq<char> {
        self.network@
    }

    /// Keeps the fee settings of `self`.
    fn new(&self, network: String) -> (r: Terra)
        ensures
            r.network == network,
            r.gas_price == self.gas_price,
            r.gas_adjustment == self.gas_adjustment,
            r.memo == self.memo,
    {
        Terra {
            network,
            gas_price: self.gas_price.clone(),
            gas_adjustment: self.gas_adjustment.clone(),
            memo: self.memo.clone(),
        }
    }

    fn validate_addrs(&self, data: &MultisendInstruction) -> (r: Result<(), Error>) {
        check_addresses(ChainKind::Terra, data)
    }

    fn validate_balance(&self, data: &MultisendInstruction, balances: &Vec<u64>) -> (r: Result<
        (),
        Error,
    >) {
        check_balances(ChainKind::Terra, data, balances)
    }
}


/// What validation owes: the amount check first, then the address check, then the balances.
pub open spec fn validation_outcome(
    kind: ChainKind,
    data: MultisendInstruction,
    balances: Seq<u64>,
    r: Result<(), Error>,
) -> bool {
    if !amounts_balanced(data) {
        r == Err::<(), Error>(
            Error::AmountMismatch {
                recipients_total: total(data.recipients@) as u128,
                senders_total: total(data.senders@) as u128,
            },
        )
    } else if !addresses_valid(kind, data) {
        r is Err && first_bad_address(kind, data, r->Err_0)
    } else {
        balances_outcome(kind, data, balances, r)
    }
}

/// The checks that need no network: amounts, then addresses.
pub fn validate_local<C: Chain>(chain: &C, data: &MultisendInstruction) -> (r: Result<(), Error>)
    ensures
        !amounts_balanced(*data) ==> r == Err::<(), Error>(
            Error::AmountMismatch {
                recipients_total: total(data.recipients@) as u128,
                senders_total: total(data.senders@) as u128,
            },
        ),
        amounts_balanced(*data) ==> addresses_outcome(chain.kind(), *data, r),
{
    match validate_tx_amounts(data) {
        Ok(_) => {},
        Err(e) => {
            return Err(e);
        },
    }
    chain.validate_addrs(data)
}

/// The whole validation, with `balances` the senders' available balances in base units.
pub fn run_validate<C: Chain>(chain: &C, data: &MultisendInstruction, balances: &Vec<u64>) -> (r:
    Result<(), Error>)
    requires
        balances@.len() == data.senders@.len(),
    ensures
        validation_outcome(chain.kind(), *data, balances@, r),
{
    match validate_local(chain, data) {
        Ok(()) => {},
        Err(e) => {
            return Err(e);
        },
    }
    chain.validate_balance(data, balances)
}

/// Validation reads its inputs and nothing else: two runs on the same instruction and the same
/// balances end alike.
pub proof fn lemma_validation_repeatable(
    kind: ChainKind,
    data: MultisendInstruction,
    balances: Seq<u64>,
    r1: Result<(), Error>,
    r2: Result<(), Error>,
)
    requires
        balances.len() == data.senders@.len(),
        validation_outcome(kind, data, balances, r1),
        validation_outcome(kind, data, balances, r2),
    ensures
        r1 == r2,
{
    if !amounts_balanced(data) {
    } else if !addresses_valid(kind, data) {
        lemma_first_bad_address_unique(kind, data, r1->Err_0, r2->Err_0);
        assert(r1 == r2);
    } else if r1 is Err && r2 is Err {
        let i1 = choose|i: int| first_uncovered(kind, data, balances, i, r1->Err_0);
        let i2 = choose|i: int| first_uncovered(kind, data, balances, i, r2->Err_0);
        if i1 < i2 {
            assert(sender_covered(kind, data, balances, i1));
        } else if i2 < i1 {
            assert(sender_covered(kind, data, balances, i2));
        }
        assert(r1->Err_0 == r2->Err_0);
        assert(r1 == r2);
    } else if r1 is Err {
        let i1 = choose|i: int| first_uncovered(kind, data, balances, i, r1->Err_0);
        assert(sender_covered(kind, data, balances, i1));
    } else if r2 is Err {
        let i2 = choose|i: int| first_uncovered(kind, data, balances, i, r2->Err_0);
        assert(sender_covered(kind, data, balances, i2));
    } else {
        assert(r1->Ok_0 == ());
        assert(r2->Ok_0 == ());
    }
}

proof fn lemma_first_bad_address_unique(
    kind: ChainKind,
    data: MultisendInstruction,
    e1: Error,
    e2: Error,
)
    requires
        first_bad_address(kind, data, e1),
        first_bad_address(kind, data, e2),
    ensures
        e1 == e2,
{
    match (e1, e2) {
        (
            Error::InvalidAddress { address: a1, role: ro1, index: i1 },
            Error::InvalidAddress { address: a2, role: ro2, index: i2 },
        ) => {
            if ro1 == Role::Recipient && ro2 == Role::Sender {
                assert(address_ok(kind, data.recipients@[i1 as int].address@));
            } else if ro1 == Role::Sender && ro2 == Role::Recipient {
                assert(address_ok(kind, data.recipients@[i2 as int].address@));
            } else {
                let s = role_entries(data, ro1);
                if i1 < i2 {
                    assert(address_ok(kind, s[i1 as int].address@));
                } else if i2 < i1 {
                    assert(address_ok(kind, s[i2 as int].address@));
                }
            }
        },
        _ => {},
    }
}

/// An entry with an empty address makes the address check fail, on every chain.
pub proof fn lemma_empty_address_refused(kind: ChainKind, data: MultisendInstruction, role: Role, i: int)
    requires
        0 <= i < role_entries(data, role).len(),
        role_entries(data, role)[i].address@.len() == 0,
    ensures
        !addresses_valid(kind, data),
{
    assert(!address_ok(kind, role_entries(data, role)[i].address@));
}

} // verus!
