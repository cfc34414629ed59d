//! The Nano RPC interface: the calls this application makes and the shape of
//! the answers. Every field of an answer may be missing.

use crate::notation::{decimal, decimal_text};
use crate::text::own;
use vstd::prelude::*;
use vstd::string::*;

verus! {

/// Where the Nano RPC service is reached unless the configuration says
/// otherwise.
pub const URL: &'static str = "https://rpc.nano.to";

/// One named value of a call.
#[derive(Debug, PartialEq, Eq)]
pub struct Field {
    pub name: String,
    pub value: String,
}

impl View for Field {
    type V = (Seq<char>, Seq<char>);

    open spec fn view(&self) -> (Seq<char>, Seq<char>) {
        (self.name@, self.value@)
    }
}

/// The named values of a call, in the order they are written.
pub open spec fn fields_view(fields: Seq<Field>) -> Seq<(Seq<char>, Seq<char>)> {
    fields.map_values(|field: Field| field@)
}

/// A call to the Nano RPC service.
#[derive(Debug, PartialEq, Eq)]
pub enum RpcCall {
    Version,
    AccountInfo { account: String },
    AccountHistory { account: String, count: i32 },
    AccountBalance { account: String },
    BlockInfo { hash: String },
    AccountCreate { wallet: String },
    AccountRemove { wallet: String, account: String },
    WalletInfo { wallet: String },
    WalletHistory { wallet: String },
    WalletCreate,
    WalletDestroy,
}

/// Mathematical value of an [`RpcCall`].
pub enum RpcCallModel {
    Version,
    AccountInfo { account: Seq<char> },
    AccountHistory { account: Seq<char>, count: i32 },
    AccountBalance { account: Seq<char> },
    BlockInfo { hash: Seq<char> },
    AccountCreate { wallet: Seq<char> },
    AccountRemove { wallet: Seq<char>, account: Seq<char> },
    WalletInfo { wallet: Seq<char> },
    WalletHistory { wallet: Seq<char> },
    WalletCreate,
    WalletDestroy,
}

impl View for RpcCall {
    type V = RpcCallModel;

    open spec fn view(&self) -> RpcCallModel {
        match self {
            RpcCall::Version => RpcCallModel::Version,
            RpcCall::AccountInfo { account } => RpcCallModel::AccountInfo { account: account@ },
            RpcCall::AccountHistory { account, count } => RpcCallModel::AccountHistory {
                account: account@,
                count: *count,
            },
            RpcCall::AccountBalance { account } => RpcCallModel::AccountBalance {
                account: account@,
            },
            RpcCall::BlockInfo { hash } => RpcCallModel::BlockInfo { hash: hash@ },
            RpcCall::AccountCreate { wallet } => RpcCallModel::AccountCreate { wallet: wallet@ },
            RpcCall::AccountRemove { wallet, account } => RpcCallModel::AccountRemove {
                wallet: wallet@,
                account: account@,
            },
            RpcCall::WalletInfo { wallet } => RpcCallModel::WalletInfo { wallet: wallet@ },
            RpcCall::WalletHistory { wallet } => RpcCallModel::WalletHistory { wallet: wallet@ },
            RpcCall::WalletCreate => RpcCallModel::WalletCreate,
            RpcCall::WalletDestroy => RpcCallModel::WalletDestroy,
        }
    }
}

impl RpcCallModel {
    /// The action that the service is asked for. The balance of an account is
    /// read off its `account_info`, and an account is removed through
    /// `account_create`.
    pub open spec fn action(self) -> Seq<char> {
        match self {
            RpcCallModel::Version => "version"@,
            RpcCallModel::AccountInfo { .. } => "account_info"@,
            RpcCallModel::AccountHistory { .. } => "account_history"@,
            RpcCallModel::AccountBalance { .. } => "account_info"@,
            RpcCallModel::BlockInfo { .. } => "block_info"@,
            RpcCallModel::AccountCreate { .. } => "account_create"@,
            RpcCallModel::AccountRemove { .. } => "account_create"@,
            RpcCallModel::WalletInfo { .. } => "wallet_info"@,
            RpcCallModel::WalletHistory { .. } => "wallet_history"@,
            RpcCallModel::WalletCreate => "wallet_create"@,
            RpcCallModel::WalletDestroy => "wallet_destroy"@,
        }
    }

    /// What the call names besides its action.
    pub open spec fn arguments(self) -> Seq<(Seq<char>, Seq<char>)> {
        match self {
            RpcCallModel::Version => seq![],
            RpcCallModel::AccountInfo { account } => seq![("account"@, account)],
            RpcCallModel::AccountHistory { account, count } => seq![
                ("account"@, account),
                ("count"@, decimal_text(count as int)),
            ],
            RpcCallModel::AccountBalance { account } => seq![("account"@, account)],
            RpcCallModel::BlockInfo { hash } => seq![("hash"@, hash)],
            RpcCallModel::AccountCreate { wallet } => seq![("wallet"@, wallet)],
            RpcCallModel::AccountRemove { wallet, account } => seq![
                ("wallet"@, wallet),
                ("account"@, account),
            ],
            RpcCallModel::WalletInfo { wallet } => seq![("wallet"@, wallet)],
            RpcCallModel::WalletHistory { wallet } => seq![("wallet"@, wallet)],
            RpcCallModel::WalletCreate => seq![],
            RpcCallModel::WalletDestroy => seq![],
        }
    }

    /// The body of the call: the action first, then the arguments.
    pub open spec fn fields(self) -> Seq<(Seq<char>, Seq<char>)> {
        seq![("action"@, self.action())] + self.arguments()
    }
}

/// A named value.
fn field(name: &str, value: String) -> (field: Field)
    ensures
        field@ == (name@, value@),
{
    Field { name: own(name), value }
}

impl RpcCall {
    /// The body of the call, as the service reads it: the action first, then
    /// what the call names.
    pub fn fields(&self) -> (fields: Vec<Field>)
        ensures
            fields_view(fields@) == self@.fields(),
    {
        let mut fields: Vec<Field> = Vec::new();
        match self {
            RpcCall::Version => {
                fields.push(field("action", own("version")));
            },
            RpcCall::AccountInfo { account } => {
                fields.push(field("action", own("account_info")));
                fields.push(field("account", account.clone()));
            },
            RpcCall::AccountHistory { account, count } => {
                fields.push(field("action", own("account_history")));
                fields.push(field("account", account.clone()));
                fields.push(field("count", decimal(*count)));
            },
            RpcCall::AccountBalance { account } => {
                fields.push(field("action", own("account_info")));
                fields.push(field("account", account.clone()));
            },
            RpcCall::BlockInfo { hash } => {
                fields.push(field("action", own("block_info")));
                fields.push(field("hash", hash.clone()));
            },
            RpcCall::AccountCreate { wallet } => {
                fields.push(field("action", own("account_create")));
                fields.push(field("wallet", wallet.clone()));
            },
            RpcCall::AccountRemove { wallet, account } => {
                fields.push(field("action", own("account_create")));
                fields.push(field("wallet", wallet.clone()));
                fields.push(field("account", account.clone()));
            },
            RpcCall::WalletInfo { wallet } => {
                fields.push(field("action", own("wallet_info")));
                fields.push(field("wallet", wallet.clone()));
            },
            RpcCall::WalletHistory { wallet } => {
                fields.push(field("action", own("wallet_history")));
                fields.push(field("wallet", wallet.clone()));
            },
            RpcCall::WalletCreate => {
                fields.push(field("action", own("wallet_create")));
            },
            RpcCall::WalletDestroy => {
                fields.push(field("action", own("wallet_destroy")));
            },
        }
        assert(fields_view(fields@) =~= self@.fields());
        fields
    }
}

/// Answer to the `version` call.
#[derive(Debug, PartialEq, Eq)]
pub struct VersionResponse {
    pub rpc_version: Option<String>,
    pub store_version: Option<String>,
    pub protocol_version: Option<String>,
    pub node_vendor: Option<String>,
    pub store_vendor: Option<String>,
    pub network: Option<String>,
}

/// Answer to the `account_info` call.
#[derive(Debug, PartialEq, Eq)]
pub struct AccountInfoResponse {
    pub frontier: Option<String>,
    pub open_block: Option<String>,
    pub representative_block: Option<String>,
    pub balance: Option<String>,
    pub balance_nano: Option<String>,
    pub modified_timestamp: Option<String>,
    pub block_count: Option<String>,
    pub account_version: Option<String>,
    pub confirmation_height: Option<String>,
    pub confirmation_height_frontier: Option<String>,
}

/// One entry of an account's history. On the wire `history_type` is named `type`.
#[derive(Debug, PartialEq, Eq)]
pub struct AccountHistoryNode {
    pub history_type: Option<String>,
    pub account: Option<String>,
    pub amount: Option<String>,
    pub local_timestamp: Option<String>,
    pub height: Option<String>,
    pub hash: Option<String>,
    pub confirmed: Option<String>,
    pub username: Option<String>,
}

/// Answer to the `account_history` call.
#[derive(Debug, PartialEq, Eq)]
pub struct AccountHistoryResponse {
    pub account: Option<String>,
    pub history: Option<Vec<AccountHistoryNode>>,
    pub previous: Option<String>,
}

/// Answer to the `account_balance` call.
#[derive(Debug, PartialEq, Eq)]
pub struct AccountBalanceResponse {
    pub balance: Option<String>,
    pub pending: Option<String>,
    pub receivable: Option<String>,
    pub balance_nano: Option<String>,
    pub pending_nano: Option<String>,
    pub receivable_nano: Option<String>,
}

/// Answer to the `account_create` call.
#[derive(Debug, PartialEq, Eq)]
pub struct AccountCreateResponse {
    pub account: Option<String>,
}

/// Answer to the `account_remove` call.
#[derive(Debug, PartialEq, Eq)]
pub struct AccountDestroyResponse {
    pub remove: Option<String>,
}

/// Answer to the `wallet_info` call.
#[derive(Debug, PartialEq, Eq)]
pub struct WalletInfoResponse {
    pub balance: Option<String>,
    pub pending: Option<String>,
    pub recievable: Option<String>,
    pub accounts_count: Option<String>,
    pub adhoc_count: Option<String>,
    pub deterministic_count: Option<String>,
    pub deterministic_index: Option<String>,
    pub accounts_block_count: Option<String>,
    pub accounts_cemented_block_count: Option<String>,
}

/// One entry of a wallet's history. On the wire `history_type` is named `type`.
#[derive(Debug, PartialEq, Eq)]
pub struct WalletHistoryNode {
    pub history_type: Option<String>,
    pub account: Option<String>,
    pub amount: Option<String>,
    pub local_timestamp: Option<String>,
    pub hash: Option<String>,
}

/// Answer to the `wallet_history` call.
#[derive(Debug, PartialEq, Eq)]
pub struct WalletHistoryResponse {
    pub history: Option<Vec<AccountHistoryNode>>,
}

/// Answer to the `wallet_create` call.
#[derive(Debug, PartialEq, Eq)]
pub struct WalletCreateResponse {
    pub wallet: Option<String>,
}

/// Answer to the `wallet_destroy` call.
#[derive(Debug, PartialEq, Eq)]
pub struct WalletDestroyResponse {
    pub destroy: Option<String>,
}

/// The block inside the answer to the `block_info` call. On the wire `content_type` is named `type`.
#[derive(Debug, PartialEq, Eq)]
pub struct BlockInfoContent {
    pub content_type: Option<String>,
    pub account: Option<String>,
    pub previous: Option<String>,
    pub representative: Option<String>,
    pub balance: Option<String>,
    pub balance_nano: Option<String>,
    pub link: Option<String>,
    pub link_as_account: Option<String>,
    pub signature: Option<String>,
    pub work: Option<String>,
}

/// Answer to the `block_info` call.
#[derive(Debug, PartialEq, Eq)]
pub struct BlockInfoResponse {
    pub block_account: Option<String>,
    pub amount: Option<String>,
    pub amount_nano: Option<String>,
    pub balance: Option<String>,
    pub balance_nano: Option<String>,
    pub height: Option<String>,
    pub local_timestamp: Option<String>,
    pub successor: Option<String>,
    pub confirmed: Option<String>,
    pub content: Option<BlockInfoContent>,
    pub subtype: Option<String>,
}

/// A field that is present and holds the empty text.
pub open spec fn is_blank(field: Option<String>) -> bool {
    field matches Some(text) && text@.len() == 0
}

/// A copy of a field.
fn copy_field(field: &Option<String>) -> (copy: Option<String>)
    ensures
        copy == *field,
{
    match field {
        Some(text) => Some(text.clone()),
        None => None,
    }
}

impl Clone for AccountBalanceResponse {
    fn clone(&self) -> (copy: Self)
        ensures
            copy == *self,
    {
        AccountBalanceResponse {
            balance: copy_field(&self.balance),
            pending: copy_field(&self.pending),
            receivable: copy_field(&self.receivable),
            balance_nano: copy_field(&self.balance_nano),
            pending_nano: copy_field(&self.pending_nano),
            receivable_nano: copy_field(&self.receivable_nano),
        }
    }
}

impl AccountBalanceResponse {
    /// The balance shown before any answer has come: every field is present
    /// and empty.
    pub fn new() -> (blank: Self)
        ensures
            is_blank(blank.balance),
            is_blank(blank.pending),
            is_blank(blank.receivable),
            is_blank(blank.balance_nano),
            is_blank(blank.pending_nano),
            is_blank(blank.receivable_nano),
    {
        Self {
            balance: Some(String::new()),
            pending: Some(String::new()),
            receivable: Some(String::new()),
            balance_nano: Some(String::new()),
            pending_nano: Some(String::new()),
            receivable_nano: Some(String::new()),
        }
    }
}

} // verus!
