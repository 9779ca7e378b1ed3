//! A staging structure for one account, with defaults for what is left unset.

use crate::account::{Account, AccountView};
use crate::error::{AccountGenError, ErrorView};
use crate::pubkey::{
    program_address, seed_bytes, seeds_within_limits, system_program, system_program_id,
    try_find_program_address, Pubkey,
};
use crate::rent::{
    lemma_minimum_balance_monotonic, minimum_balance, rent_exempt_minimum, MAX_DATA_LEN,
};
use vstd::prelude::*;

verus! {

/// A builder for mock accounts.
///
/// What is left unset is resolved when the account is built: the owner to the
/// system program, the balance to the rent-exempt minimum for the payload.
/// `executable` starts as `false`, `rent_epoch` as 0, the payload empty.
#[derive(Debug)]
pub struct AccountBuilder {
    pubkey: Option<Pubkey>,
    lamports: Option<u64>,
    owner: Option<Pubkey>,
    executable: bool,
    rent_epoch: u64,
    data: Vec<u8>,
}

/// What a builder holds, identifiers and payload as sequences of bytes.
pub ghost struct BuilderView {
    pub pubkey: Option<Seq<u8>>,
    pub lamports: Option<u64>,
    pub owner: Option<Seq<u8>>,
    pub executable: bool,
    pub rent_epoch: u64,
    pub data: Seq<u8>,
}

impl BuilderView {
    /// The state of a new builder: nothing set.
    pub open spec fn empty() -> BuilderView {
        BuilderView {
            pubkey: None,
            lamports: None,
            owner: None,
            executable: false,
            rent_epoch: 0,
            data: Seq::empty(),
        }
    }

    /// The owner of the account to build: the one set, else the system program.
    pub open spec fn resolved_owner(self) -> Seq<u8> {
        match self.owner {
            Some(owner) => owner,
            None => system_program(),
        }
    }

    /// The balance of the account to build: the one set, else the rent-exempt
    /// minimum for the payload.
    pub open spec fn resolved_balance(self) -> nat {
        match self.lamports {
            Some(lamports) => lamports as nat,
            None => minimum_balance(self.data.len()),
        }
    }

    /// Whether the balance can be resolved: it is set, or the payload is short
    /// enough for its rent-exempt minimum to be computed exactly.
    pub open spec fn buildable(self) -> bool {
        self.lamports is None ==> self.data.len() <= MAX_DATA_LEN
    }

    /// The account that the builder stands for.
    pub open spec fn account(self) -> AccountView {
        AccountView {
            lamports: self.resolved_balance() as u64,
            data: self.data,
            owner: self.resolved_owner(),
            executable: self.executable,
            rent_epoch: self.rent_epoch,
        }
    }
}

/// What a builder holds, as plain values: for storing a builder and for
/// making one from what was stored.
#[derive(Debug)]
pub struct BuilderParts {
    pub pubkey: Option<Pubkey>,
    pub lamports: Option<u64>,
    pub owner: Option<Pubkey>,
    pub executable: bool,
    pub rent_epoch: u64,
    pub data: Vec<u8>,
}

impl View for BuilderParts {
    type V = BuilderView;

    open spec fn view(&self) -> BuilderView {
        BuilderView {
            pubkey: match self.pubkey {
                Some(key) => Some(key@),
                None => None,
            },
            lamports: self.lamports,
            owner: match self.owner {
                Some(key) => Some(key@),
                None => None,
            },
            executable: self.executable,
            rent_epoch: self.rent_epoch,
            data: self.data@,
        }
    }
}

impl View for AccountBuilder {
    type V = BuilderView;

    closed spec fn view(&self) -> BuilderView {
        BuilderView {
            pubkey: match self.pubkey {
                Some(key) => Some(key@),
                None => None,
            },
            lamports: self.lamports,
            owner: match self.owner {
                Some(key) => Some(key@),
                None => None,
            },
            executable: self.executable,
            rent_epoch: self.rent_epoch,
            data: self.data@,
        }
    }
}

/// Of two builders with the balance left unset, the one with the longer
/// payload builds an account with at least the balance of the other.
pub proof fn lemma_default_balance_monotonic(shorter: BuilderView, longer: BuilderView)
    requires
        shorter.lamports is None,
        longer.lamports is None,
        shorter.data.len() <= longer.data.len(),
        longer.buildable(),
    ensures
        shorter.buildable(),
        shorter.account().lamports == minimum_balance(shorter.data.len()),
        longer.account().lamports == minimum_balance(longer.data.len()),
        shorter.account().lamports <= longer.account().lamports,
{
    lemma_minimum_balance_monotonic(shorter.data.len(), longer.data.len());
    lemma_minimum_balance_monotonic(longer.data.len(), MAX_DATA_LEN as nat);
    assert(minimum_balance(MAX_DATA_LEN as nat) == 18_014_398_509_481_440);
}

/// A builder with the owner left unset builds an account of the system
/// program, whatever else it holds.
pub proof fn lemma_default_owner(builder: BuilderView)
    requires
        builder.owner is None,
    ensures
        builder.account().owner == system_program(),
{
}

impl Default for AccountBuilder {
    /// A builder with nothing set.
    fn default() -> (builder: AccountBuilder)
        ensures
            builder@ == BuilderView::empty(),
    {
        AccountBuilder::new()
    }
}

impl Clone for AccountBuilder {
    fn clone(&self) -> (copy: AccountBuilder)
        ensures
            copy@ == self@,
    {
        let data = self.data.clone();
        assert(data@ =~= self.data@);
        AccountBuilder {
            pubkey: self.pubkey,
            lamports: self.lamports,
            owner: self.owner,
            executable: self.executable,
            rent_epoch: self.rent_epoch,
            data,
        }
    }
}

/// The account kept at a program-derived address: owned by the program, with
/// the given balance and payload.
pub open spec fn pda_account(program_id: Seq<u8>, balance: u64, data: Seq<u8>) -> AccountView {
    AccountView { lamports: balance, data, owner: program_id, executable: false, rent_epoch: 0 }
}

/// The bytes that a text stands for in base64, standard alphabet with
/// padding, or `None` where the text is not such an encoding.
pub uninterp spec fn base64_decoded(text: Seq<char>) -> Option<Seq<u8>>;

/// `base64::decode`, which decodes with the crate's `STANDARD` engine.
///
/// The bytes depend on the text alone. Where the outside function fails, its
/// error comes back as its message.
#[verifier::external_body]
fn decode_base64(text: &str) -> (decoded: Result<Vec<u8>, String>)
    ensures
        match decoded {
            Ok(bytes) => base64_decoded(text@) == Some(bytes@),
            Err(_) => base64_decoded(text@) is None,
        },
{
    #[allow(deprecated)]
    base64::decode(text).map_err(|error| error.to_string())
}

impl AccountBuilder {
    /// Creates a builder with nothing set.
    pub fn new() -> (builder: AccountBuilder)
        ensures
            builder@ == BuilderView::empty(),
    {
        AccountBuilder {
            pubkey: None,
            lamports: None,
            owner: None,
            executable: false,
            rent_epoch: 0,
            data: Vec::new(),
        }
    }

    /// Makes a builder that holds the given values.
    pub fn from_parts(parts: BuilderParts) -> (builder: AccountBuilder)
        ensures
            builder@ == parts@,
    {
        AccountBuilder {
            pubkey: parts.pubkey,
            lamports: parts.lamports,
            owner: parts.owner,
            executable: parts.executable,
            rent_epoch: parts.rent_epoch,
            data: parts.data,
        }
    }

    /// Hands out what the builder holds.
    pub fn into_parts(self) -> (parts: BuilderParts)
        ensures
            parts@ == self@,
    {
        BuilderParts {
            pubkey: self.pubkey,
            lamports: self.lamports,
            owner: self.owner,
            executable: self.executable,
            rent_epoch: self.rent_epoch,
            data: self.data,
        }
    }

    /// Sets the balance, in lamports.
    pub fn balance(self, lamports: u64) -> (builder: AccountBuilder)
        ensures
            builder@ == (BuilderView { lamports: Some(lamports), ..self@ }),
    {
        let mut builder = self;
        builder.lamports = Some(lamports);
        builder
    }

    /// Sets the owner.
    pub fn owner(self, owner: Pubkey) -> (builder: AccountBuilder)
        ensures
            builder@ == (BuilderView { owner: Some(owner@), ..self@ }),
    {
        let mut builder = self;
        builder.owner = Some(owner);
        builder
    }

    /// Sets whether the account is executable.
    pub fn executable(self, executable: bool) -> (builder: AccountBuilder)
        ensures
            builder@ == (BuilderView { executable, ..self@ }),
    {
        let mut builder = self;
        builder.executable = executable;
        builder
    }

    /// Sets the rent epoch.
    pub fn rent_epoch(self, rent_epoch: u64) -> (builder: AccountBuilder)
        ensures
            builder@ == (BuilderView { rent_epoch, ..self@ }),
    {
        let mut builder = self;
        builder.rent_epoch = rent_epoch;
        builder
    }

    /// Replaces the payload with the given bytes, as they are.
    pub fn data_raw(self, data: Vec<u8>) -> (builder: AccountBuilder)
        ensures
            builder@ == (BuilderView { data: data@, ..self@ }),
    {
        let mut builder = self;
        builder.data = data;
        builder
    }

    /// Stores an encoded value as the payload, or reports that encoding failed.
    ///
    /// `encoded` is what the serialization adapter made of the value: its
    /// bytes, or the message of its failure, which comes back as a
    /// `SerializationError`.
    pub fn data(self, encoded: Result<Vec<u8>, String>) -> (stored: Result<
        AccountBuilder,
        AccountGenError,
    >)
        ensures
            match encoded {
                Ok(bytes) => stored matches Ok(builder) && builder@ == (BuilderView {
                    data: bytes@,
                    ..self@
                }),
                Err(message) => stored matches Err(error) && error@
                    == ErrorView::SerializationError(message@),
            },
    {
        match encoded {
            Ok(bytes) => Ok(self.data_raw(bytes)),
            Err(message) => Err(AccountGenError::SerializationError(message)),
        }
    }

    /// Decodes base64 text and stores the bytes as the payload.
    ///
    /// Fails with `InvalidDataFormat` exactly where the text is not base64.
    pub fn data_base64(self, base64_data: &str) -> (stored: Result<AccountBuilder, AccountGenError>)
        ensures
            match base64_decoded(base64_data@) {
                Some(bytes) => stored matches Ok(builder) && builder@ == (BuilderView {
                    data: bytes,
                    ..self@
                }),
                None => stored matches Err(error) && error@ is InvalidDataFormat,
            },
    {
        match decode_base64(base64_data) {
            Ok(bytes) => Ok(self.data_raw(bytes)),
            Err(message) => Err(AccountGenError::InvalidDataFormat(message)),
        }
    }

    /// Sets the account's own identifier.
    pub fn pubkey(self, pubkey: Pubkey) -> (builder: AccountBuilder)
        ensures
            builder@ == (BuilderView { pubkey: Some(pubkey@), ..self@ }),
    {
        let mut builder = self;
        builder.pubkey = Some(pubkey);
        builder
    }

    /// Builds the account, resolving owner and balance where they are unset.
    ///
    /// Never fails: an unset owner becomes the system program, an unset
    /// balance the rent-exempt minimum for the payload.
    pub fn try_build(self) -> (built: Result<Account, AccountGenError>)
        requires
            self@.buildable(),
        ensures
            built matches Ok(account) && account@ == self@.account(),
            self@.owner is None ==> built->Ok_0.owner@ == system_program(),
            self@.lamports is None ==> built->Ok_0.lamports == minimum_balance(self@.data.len()),
    {
        Ok(self.build())
    }

    /// Builds the account, resolving owner and balance where they are unset.
    ///
    /// Does what `try_build` does, for callers that have no use for a
    /// `Result` that is always `Ok`.
    pub fn build(self) -> (account: Account)
        requires
            self@.buildable(),
        ensures
            account@ == self@.account(),
            self@.owner is None ==> account.owner@ == system_program(),
            self@.lamports is None ==> account.lamports == minimum_balance(self@.data.len()),
    {
        let owner = match self.owner {
            Some(owner) => owner,
            None => system_program_id(),
        };
        let lamports = match self.lamports {
            Some(lamports) => lamports,
            None => rent_exempt_minimum(self.data.len()),
        };
        Account {
            lamports,
            data: self.data,
            owner,
            executable: self.executable,
            rent_epoch: self.rent_epoch,
        }
    }

    /// Builds the account and returns it with its own identifier.
    pub fn build_with_pubkey(self) -> (built: (Pubkey, Account))
        requires
            self@.pubkey is Some,
            self@.buildable(),
        ensures
            Some(built.0@) == self@.pubkey,
            built.1@ == self@.account(),
    {
        let pubkey = match self.pubkey {
            Some(pubkey) => pubkey,
            None => unreached(),
        };
        (pubkey, self.build())
    }

    /// Builds the account and returns it with its own identifier.
    ///
    /// Fails with `MissingPubkey` exactly where no identifier was set.
    pub fn try_build_with_pubkey(self) -> (built: Result<(Pubkey, Account), AccountGenError>)
        requires
            self@.buildable(),
        ensures
            match self@.pubkey {
                Some(pubkey) => built matches Ok((key, account)) && key@ == pubkey && account@
                    == self@.account(),
                None => built matches Err(error) && error@ == ErrorView::MissingPubkey,
            },
    {
        match self.pubkey {
            Some(pubkey) => Ok((pubkey, self.build())),
            None => Err(AccountGenError::MissingPubkey),
        }
    }

    /// Builds the account and returns it with the given identifier.
    pub fn create_with_pubkey(self, pubkey: Pubkey) -> (built: Result<
        (Pubkey, Account),
        AccountGenError,
    >)
        requires
            self@.buildable(),
        ensures
            built matches Ok((key, account)) && key@ == pubkey@ && account@ == self@.account(),
    {
        Ok((pubkey, self.build()))
    }

    /// Builds an account at the address derived from `seeds` under `program_id`.
    ///
    /// The account is owned by the program, holds `balance` and has the
    /// encoded value as its payload. Returns it with the address and the bump
    /// seed of the derivation. Fails with `SerializationError` where encoding
    /// failed.
    pub fn create_pda(
        program_id: &Pubkey,
        seeds: &[&[u8]],
        balance: u64,
        encoded: Result<Vec<u8>, String>,
    ) -> (created: Result<(Pubkey, u8, Account), AccountGenError>)
        requires
            program_address(seed_bytes(seeds@), program_id@) is Some,
        ensures
            match encoded {
                Ok(bytes) => created matches Ok((address, bump, account)) && Some((address@, bump))
                    == program_address(seed_bytes(seeds@), program_id@) && account@
                    == pda_account(program_id@, balance, bytes@),
                Err(message) => created matches Err(error) && error@
                    == ErrorView::SerializationError(message@),
            },
    {
        let (address, bump) = match try_find_program_address(seeds, program_id) {
            Some(found) => found,
            None => unreached(),
        };
        match AccountBuilder::new().balance(balance).owner(*program_id).data(encoded) {
            Ok(builder) => Ok((address, bump, builder.build())),
            Err(error) => Err(error),
        }
    }

    /// Builds an account at the address derived from `seeds` under
    /// `program_id`, where there is one.
    ///
    /// Returns `None` exactly where no address can be derived from the seeds,
    /// and what `create_pda` returns otherwise.
    pub fn try_create_pda(
        program_id: &Pubkey,
        seeds: &[&[u8]],
        balance: u64,
        encoded: Result<Vec<u8>, String>,
    ) -> (created: Option<Result<(Pubkey, u8, Account), AccountGenError>>)
        ensures
            created is None <==> program_address(seed_bytes(seeds@), program_id@) is None,
            !seeds_within_limits(seed_bytes(seeds@)) ==> created is None,
            created matches Some(outcome) ==> match encoded {
                Ok(bytes) => outcome matches Ok((address, bump, account)) && Some((address@, bump))
                    == program_address(seed_bytes(seeds@), program_id@) && account@
                    == pda_account(program_id@, balance, bytes@),
                Err(message) => outcome matches Err(error) && error@
                    == ErrorView::SerializationError(message@),
            },
    {
        match try_find_program_address(seeds, program_id) {
            Some(_) => Some(AccountBuilder::create_pda(program_id, seeds, balance, encoded)),
            None => None,
        }
    }
}

} // verus!
