//! Keys, hashes, signatures, accounts and transactions of the ledger.
use vstd::prelude::*;

verus! {

/// The address of an account.
#[derive(Debug, Clone, Copy, PartialEq, Eq)]
pub struct Pubkey(pub [u8; 32]);

/// A 32-byte digest: a block hash, or the hash that a processed transaction is filed under.
#[derive(Debug, Clone, Copy, PartialEq, Eq)]
pub struct Digest(pub [u8; 32]);

/// A transaction signature.
#[derive(Debug, Clone, Copy, PartialEq, Eq)]
pub struct Signature(pub [u8; 64]);

impl View for Pubkey {
    type V = Seq<u8>;

    open spec fn view(&self) -> Seq<u8> {
        self.0@
    }
}

impl DeepView for Pubkey {
    type V = Seq<u8>;

    open spec fn deep_view(&self) -> Seq<u8> {
        self@
    }
}

impl View for Digest {
    type V = Seq<u8>;

    open spec fn view(&self) -> Seq<u8> {
        self.0@
    }
}

impl DeepView for Digest {
    type V = Seq<u8>;

    open spec fn deep_view(&self) -> Seq<u8> {
        self@
    }
}

impl View for Signature {
    type V = Seq<u8>;

    open spec fn view(&self) -> Seq<u8> {
        self.0@
    }
}

impl DeepView for Signature {
    type V = Seq<u8>;

    open spec fn deep_view(&self) -> Seq<u8> {
        self@
    }
}

/// The state of one account.
#[derive(Debug, PartialEq, Eq)]
pub struct Account {
    pub lamports: u64,
    pub data: Vec<u8>,
    pub owner: Pubkey,
    pub executable: bool,
    pub rent_epoch: u64,
}

/// What an [`Account`] holds.
pub struct AccountView {
    pub lamports: u64,
    pub data: Seq<u8>,
    pub owner: Seq<u8>,
    pub executable: bool,
    pub rent_epoch: u64,
}

impl View for Account {
    type V = AccountView;

    open spec fn view(&self) -> AccountView {
        AccountView {
            lamports: self.lamports,
            data: self.data@,
            owner: self.owner@,
            executable: self.executable,
            rent_epoch: self.rent_epoch,
        }
    }
}

impl DeepView for Account {
    type V = AccountView;

    open spec fn deep_view(&self) -> AccountView {
        self@
    }
}

impl Clone for Account {
    fn clone(&self) -> (copy: Self)
        ensures
            copy@ == self@,
    {
        Account {
            lamports: self.lamports,
            data: self.data.clone(),
            owner: self.owner,
            executable: self.executable,
            rent_epoch: self.rent_epoch,
        }
    }
}

/// How many accounts of a message sign it, and how many may only be read.
#[derive(Debug, Clone, Copy, PartialEq, Eq)]
pub struct MessageHeader {
    pub num_required_signatures: u8,
    pub num_readonly_signed_accounts: u8,
    pub num_readonly_unsigned_accounts: u8,
}

/// One instruction of a message, its accounts given by their positions in the message.
#[derive(Debug, PartialEq, Eq)]
pub struct CompiledInstruction {
    pub program_id_index: u8,
    pub accounts: Vec<u8>,
    pub data: Vec<u8>,
}

/// What a [`CompiledInstruction`] holds.
pub struct CompiledInstructionView {
    pub program_id_index: u8,
    pub accounts: Seq<u8>,
    pub data: Seq<u8>,
}

impl View for CompiledInstruction {
    type V = CompiledInstructionView;

    open spec fn view(&self) -> CompiledInstructionView {
        CompiledInstructionView {
            program_id_index: self.program_id_index,
            accounts: self.accounts@,
            data: self.data@,
        }
    }
}

impl DeepView for CompiledInstruction {
    type V = CompiledInstructionView;

    open spec fn deep_view(&self) -> CompiledInstructionView {
        self@
    }
}

impl Clone for CompiledInstruction {
    fn clone(&self) -> (copy: Self)
        ensures
            copy@ == self@,
    {
        CompiledInstruction {
            program_id_index: self.program_id_index,
            accounts: self.accounts.clone(),
            data: self.data.clone(),
        }
    }
}

/// The signed part of a transaction.
#[derive(Debug, PartialEq, Eq)]
pub struct Message {
    pub header: MessageHeader,
    pub account_keys: Vec<Pubkey>,
    pub recent_blockhash: Digest,
    pub instructions: Vec<CompiledInstruction>,
}

/// What a [`Message`] holds.
pub struct MessageView {
    pub header: MessageHeader,
    pub account_keys: Seq<Seq<u8>>,
    pub recent_blockhash: Seq<u8>,
    pub instructions: Seq<CompiledInstructionView>,
}

impl View for Message {
    type V = MessageView;

    open spec fn view(&self) -> MessageView {
        MessageView {
            header: self.header,
            account_keys: self.account_keys.deep_view(),
            recent_blockhash: self.recent_blockhash@,
            instructions: self.instructions.deep_view(),
        }
    }
}

impl Clone for Message {
    fn clone(&self) -> (copy: Self)
        ensures
            copy@ == self@,
    {
        let copy = Message {
            header: self.header,
            account_keys: self.account_keys.clone(),
            recent_blockhash: self.recent_blockhash,
            instructions: self.instructions.clone(),
        };
        assert(copy.account_keys.deep_view() =~= self.account_keys.deep_view());
        assert(copy.instructions.deep_view() =~= self.instructions.deep_view());
        copy
    }
}

/// A legacy transaction: a message and the signatures of its first accounts.
#[derive(Debug, PartialEq, Eq)]
pub struct Transaction {
    pub signatures: Vec<Signature>,
    pub message: Message,
}

/// What a [`Transaction`] holds.
pub struct TransactionView {
    pub signatures: Seq<Seq<u8>>,
    pub message: MessageView,
}

impl View for Transaction {
    type V = TransactionView;

    open spec fn view(&self) -> TransactionView {
        TransactionView { signatures: self.signatures.deep_view(), message: self.message@ }
    }
}

impl DeepView for Transaction {
    type V = TransactionView;

    open spec fn deep_view(&self) -> TransactionView {
        self@
    }
}

impl Clone for Transaction {
    fn clone(&self) -> (copy: Self)
        ensures
            copy@ == self@,
    {
        let copy = Transaction {
            signatures: self.signatures.clone(),
            message: self.message.clone(),
        };
        assert(copy.signatures.deep_view() =~= self.signatures.deep_view());
        copy
    }
}

/// What an account, an instruction and a transaction hold is what they are made of, down to the
/// bytes of every key, signature and instruction.
pub proof fn law_ledger_views(
    account: Account,
    instruction: CompiledInstruction,
    tx: Transaction,
    i: int,
)
    ensures
        account@.lamports == account.lamports,
        account@.data == account.data@,
        account@.owner == account.owner.0@,
        account@.executable == account.executable,
        account@.rent_epoch == account.rent_epoch,
        instruction@.program_id_index == instruction.program_id_index,
        instruction@.accounts == instruction.accounts@,
        instruction@.data == instruction.data@,
        tx@.signatures.len() == tx.signatures@.len(),
        0 <= i < tx.signatures@.len() ==> tx@.signatures[i] == tx.signatures@[i].0@,
        tx@.message.header == tx.message.header,
        tx@.message.account_keys.len() == tx.message.account_keys@.len(),
        0 <= i < tx.message.account_keys@.len() ==> tx@.message.account_keys[i]
            == tx.message.account_keys@[i].0@,
        tx@.message.recent_blockhash == tx.message.recent_blockhash.0@,
        tx@.message.instructions.len() == tx.message.instructions@.len(),
        0 <= i < tx.message.instructions@.len() ==> tx@.message.instructions[i]
            == tx.message.instructions@[i]@,
{
}

} // verus!
